use observatory::model::CheckedMonitoringTargetStatus;
use observatory::model::Message;
use observatory::model::MonitoringTargetDescriptor;
use observatory::model::MonitoringTargetStatus;
use observatory::model::MonitoringTargetTypeDescriptor;
use observatory::model::Observation;
use observatory::model::Timestamp;
use observatory::bus::attach;
use observatory::bus::open_bus;
use observatory::bus::publish;
use observatory::bus::BACKLOG_CAPACITY;
use observatory::db::create_or_update_monitoring_target;
use observatory::db::get_observations;
use observatory::db::init_db;
use observatory::db::StoreError;
use observatory::paths::events;
use observatory::paths::on_stream_event;
use observatory::paths::StreamEvent;
use observatory::paths::StreamStep;
use observatory::schedule::observe;
use observatory::schedule::record_observation;
use rocket::tokio::sync::broadcast::channel;
use rocket::tokio::sync::broadcast::error::TryRecvError;
use rocket::tokio::sync::broadcast::Receiver;

fn unit_target() -> MonitoringTargetDescriptor {
    MonitoringTargetDescriptor {
        id: "db".to_string(),
        name: "Database".to_string(),
        interval: 60,
        retries: 0,
        timeout: 5,
        target: MonitoringTargetTypeDescriptor::Systemd { unit: "postgresql.service".to_string() },
    }
}

fn note(text: &str, secs: i64) -> Observation {
    observe(
        &unit_target(),
        CheckedMonitoringTargetStatus { status: MonitoringTargetStatus::Unhealthy, description: text.to_string() },
        0,
        Timestamp { secs, nanos: 0 },
    )
}

fn text_of(message: &Message) -> String {
    match message {
        Message::Observation(observation) => observation.observed_status.description.clone(),
        Message::AppUpdate => "<connected>".to_string(),
    }
}

fn read(receiver: &mut Receiver<Message>) -> Option<StreamEvent> {
    match receiver.try_recv() {
        Ok(message) => Some(StreamEvent::Received(message)),
        Err(TryRecvError::Lagged(missed)) => Some(StreamEvent::Lagged(missed)),
        Err(TryRecvError::Closed) => Some(StreamEvent::Closed),
        Err(TryRecvError::Empty) => None,
    }
}

#[test]
fn stream_starts_with_the_connected_marker() {
    let sent = events(&vec![]);
    assert_eq!(sent.len(), 1);
    assert!(matches!(sent[0], Message::AppUpdate));
}

#[test]
fn stream_forwards_messages_in_order_until_closed() {
    let reads = vec![
        StreamEvent::Received(Message::Observation(note("one", 1))),
        StreamEvent::Received(Message::Observation(note("two", 2))),
        StreamEvent::Closed,
        StreamEvent::Received(Message::Observation(note("never", 3))),
    ];
    let sent = events(&reads);
    let found: Vec<String> = sent.iter().map(text_of).collect();
    assert_eq!(found, vec!["<connected>", "one", "two"]);
}

#[test]
fn stream_ends_on_shutdown() {
    let reads = vec![
        StreamEvent::Received(Message::Observation(note("one", 1))),
        StreamEvent::Shutdown,
        StreamEvent::Received(Message::Observation(note("never", 2))),
    ];
    let found: Vec<String> = events(&reads).iter().map(text_of).collect();
    assert_eq!(found, vec!["<connected>", "one"]);
}

#[test]
fn gap_is_skipped_and_the_stream_goes_on() {
    let reads = vec![
        StreamEvent::Received(Message::Observation(note("one", 1))),
        StreamEvent::Lagged(7),
        StreamEvent::Received(Message::Observation(note("nine", 9))),
        StreamEvent::Lagged(1),
        StreamEvent::Received(Message::AppUpdate),
    ];
    let found: Vec<String> = events(&reads).iter().map(text_of).collect();
    assert_eq!(found, vec!["<connected>", "one", "nine", "<connected>"]);
}

#[test]
fn each_stream_event_has_its_step() {
    match on_stream_event(StreamEvent::Received(Message::Observation(note("one", 1)))) {
        StreamStep::Forward(message) => assert_eq!(text_of(&message), "one"),
        other => panic!("unexpected step {:?}", other),
    }
    assert!(matches!(on_stream_event(StreamEvent::Received(Message::AppUpdate)), StreamStep::Forward(Message::AppUpdate)));
    assert!(matches!(on_stream_event(StreamEvent::Lagged(3)), StreamStep::Skip));
    assert!(matches!(on_stream_event(StreamEvent::Closed), StreamStep::Stop));
    assert!(matches!(on_stream_event(StreamEvent::Shutdown), StreamStep::Stop));
}

#[test]
fn publishing_without_subscribers_is_no_failure() {
    let (sender, receiver) = channel::<Message>(4);
    drop(receiver);
    for i in 0..20 {
        publish(&sender, Message::Observation(note("nobody listens", i)));
    }
    let mut late = sender.subscribe();
    assert!(read(&mut late).is_none());
    publish(&sender, Message::Observation(note("now one does", 21)));
    match read(&mut late) {
        Some(StreamEvent::Received(message)) => assert_eq!(text_of(&message), "now one does"),
        other => panic!("unexpected read {:?}", other),
    }
}

#[test]
fn publishing_reaches_every_subscriber() {
    let (sender, mut first) = channel::<Message>(8);
    let mut others: Vec<Receiver<Message>> = (0..5).map(|_| sender.subscribe()).collect();
    publish(&sender, Message::Observation(note("one", 1)));
    publish(&sender, Message::Observation(note("two", 2)));
    for receiver in std::iter::once(&mut first).chain(others.iter_mut()) {
        let mut reads = Vec::new();
        while let Some(event) = read(receiver) {
            reads.push(event);
        }
        let found: Vec<String> = events(&reads).iter().map(text_of).collect();
        assert_eq!(found, vec!["<connected>", "one", "two"]);
    }
}

#[test]
fn slow_subscriber_sees_a_gap_and_then_the_newest_messages() {
    let (sender, mut slow) = channel::<Message>(4);
    let mut quick = sender.subscribe();
    let mut quick_found: Vec<String> = Vec::new();
    for i in 0..10 {
        publish(&sender, Message::Observation(note(&format!("m{}", i), i)));
        match read(&mut quick) {
            Some(StreamEvent::Received(message)) => quick_found.push(text_of(&message)),
            other => panic!("unexpected read {:?}", other),
        }
    }
    assert_eq!(quick_found.len(), 10);
    let mut reads = Vec::new();
    while let Some(event) = read(&mut slow) {
        reads.push(event);
    }
    assert!(matches!(reads[0], StreamEvent::Lagged(6)));
    let found: Vec<String> = events(&reads).iter().map(text_of).collect();
    assert_eq!(found, vec!["<connected>", "m6", "m7", "m8", "m9"]);
    publish(&sender, Message::Observation(note("m10", 10)));
    match read(&mut slow) {
        Some(StreamEvent::Received(message)) => assert_eq!(text_of(&message), "m10"),
        other => panic!("unexpected read {:?}", other),
    }
}

#[test]
fn recording_appends_to_the_store_and_publishes() {
    let mut store = init_db();
    create_or_update_monitoring_target(&mut store, &unit_target());
    let (sender, mut receiver) = channel::<Message>(4);
    assert!(record_observation(&mut store, &sender, note("down", 100)).is_ok());
    match read(&mut receiver) {
        Some(StreamEvent::Received(Message::Observation(observation))) => {
            assert_eq!(observation.observed_status.description, "down");
            assert_eq!(observation.monitoring_target.id, "db");
        }
        other => panic!("unexpected read {:?}", other),
    }
    let history = get_observations(&store, "db").unwrap();
    assert_eq!(history.len(), 1);
    assert_eq!(history[0].observed_status.description, "down");
    assert!(matches!(
        record_observation(&mut store, &sender, note("again", 100)),
        Err(StoreError::DuplicateObservation)
    ));
    assert!(read(&mut receiver).is_none());
    assert_eq!(get_observations(&store, "db").unwrap().len(), 1);
}

#[test]
fn attaching_gives_the_connected_marker_and_later_messages() {
    let (sender, _first) = open_bus();
    publish(&sender, Message::Observation(note("before", 1)));
    let (mut receiver, marker) = attach(&sender);
    assert!(matches!(marker, Message::AppUpdate));
    assert!(read(&mut receiver).is_none());
    publish(&sender, Message::Observation(note("after", 2)));
    match read(&mut receiver) {
        Some(StreamEvent::Received(message)) => assert_eq!(text_of(&message), "after"),
        other => panic!("unexpected read {:?}", other),
    }
}

#[test]
fn bus_keeps_a_backlog_of_1024_messages() {
    assert_eq!(BACKLOG_CAPACITY, 1024);
    let (sender, mut first) = open_bus();
    let (mut second, _) = attach(&sender);
    for i in 0..1024 {
        publish(&sender, Message::Observation(note("fits", i)));
    }
    assert!(matches!(read(&mut first), Some(StreamEvent::Received(_))));
    for i in 0..6 {
        publish(&sender, Message::Observation(note("overflows", 2000 + i)));
    }
    assert!(matches!(read(&mut second), Some(StreamEvent::Lagged(6))));
    assert!(matches!(read(&mut second), Some(StreamEvent::Received(_))));
    assert!(matches!(read(&mut first), Some(StreamEvent::Lagged(5))));
}

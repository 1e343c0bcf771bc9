use observatory::args::Args;
use observatory::db::add_observation;
use observatory::db::create_or_update_monitoring_target;
use observatory::db::delete_observations_before;
use observatory::db::delete_old_observations;
use observatory::db::get_last_observations;
use observatory::db::get_latest;
use observatory::db::get_monitoring_target;
use observatory::db::get_monitoring_target_descriptors;
use observatory::db::get_observations;
use observatory::db::has_monitoring_target;
use observatory::db::init_db;
use observatory::db::Store;
use observatory::db::StoreError;
use observatory::model::MonitoringTargetDescriptor;
use observatory::model::MonitoringTargetStatus;
use observatory::model::MonitoringTargetTypeDescriptor;
use observatory::model::Observation;
use observatory::model::ObservedMonitoringTargetStatus;
use observatory::model::Timestamp;
use observatory::paths::observations;
use observatory::paths::status;
use observatory::paths::targets;
use observatory::schedule::schedule_checks;
use observatory::schedule::schedule_cleanup;
use observatory::schedule::ControllerState;

const DAY: i64 = 86_400;

fn ping_target(id: &str, name: &str) -> MonitoringTargetDescriptor {
    MonitoringTargetDescriptor {
        id: id.to_string(),
        name: name.to_string(),
        interval: 30,
        retries: 1,
        timeout: 10,
        target: MonitoringTargetTypeDescriptor::Ping { target: "10.0.0.1".to_string() },
    }
}

fn seen(target: &MonitoringTargetDescriptor, secs: i64, text: &str) -> Observation {
    Observation {
        monitoring_target: target.clone(),
        observed_status: ObservedMonitoringTargetStatus {
            timestamp: Timestamp { secs, nanos: 0 },
            status: MonitoringTargetStatus::Healthy,
            description: text.to_string(),
            retries: 0,
        },
    }
}

fn store_with(ids: &[&str]) -> Store {
    let mut store = init_db();
    for id in ids {
        create_or_update_monitoring_target(&mut store, &ping_target(id, id));
    }
    store
}

fn texts(found: &Vec<Observation>) -> Vec<String> {
    found.iter().map(|o| o.observed_status.description.clone()).collect()
}

#[test]
fn new_store_is_empty() {
    let store = init_db();
    assert!(get_monitoring_target_descriptors(&store).is_empty());
    assert!(!has_monitoring_target(&store, "a"));
    assert!(get_latest(&store, "a").is_none());
    assert!(get_last_observations(&store, &vec!["a".to_string()]).is_empty());
}

#[test]
fn declared_targets_are_listed_in_order() {
    let store = store_with(&["a", "b", "c"]);
    let listed = get_monitoring_target_descriptors(&store);
    let ids: Vec<&str> = listed.iter().map(|t| t.id.as_str()).collect();
    assert_eq!(ids, vec!["a", "b", "c"]);
    assert!(has_monitoring_target(&store, "b"));
    assert!(!has_monitoring_target(&store, "d"));
    let listed = targets(&store);
    assert_eq!(listed.len(), 3);
}

#[test]
fn unknown_target_is_an_error() {
    let store = store_with(&["a"]);
    assert!(matches!(get_monitoring_target(&store, "zz"), Err(StoreError::UnknownTarget)));
    assert!(matches!(get_observations(&store, "zz"), Err(StoreError::UnknownTarget)));
    assert!(matches!(observations(&store, "zz"), Err(StoreError::UnknownTarget)));
    assert!(get_monitoring_target(&store, "a").is_ok());
}

#[test]
fn upsert_overwrites_every_field_and_keeps_observations() {
    let mut store = store_with(&["a", "b"]);
    let first = ping_target("a", "a");
    add_observation(&mut store, &seen(&first, 100, "one")).unwrap();
    add_observation(&mut store, &seen(&first, 200, "two")).unwrap();
    let renewed = MonitoringTargetDescriptor {
        id: "a".to_string(),
        name: "Renamed".to_string(),
        interval: 7,
        retries: 9,
        timeout: 3,
        target: MonitoringTargetTypeDescriptor::FSSpace { path: "/var".to_string() },
    };
    create_or_update_monitoring_target(&mut store, &renewed);
    let listed = get_monitoring_target_descriptors(&store);
    assert_eq!(listed.len(), 2);
    let found = get_monitoring_target(&store, "a").unwrap();
    assert_eq!(found.id, "a");
    assert_eq!(found.name, "Renamed");
    assert_eq!(found.interval, 7);
    assert_eq!(found.retries, 9);
    assert_eq!(found.timeout, 3);
    assert!(matches!(&found.target, MonitoringTargetTypeDescriptor::FSSpace { path } if path == "/var"));
    let other = get_monitoring_target(&store, "b").unwrap();
    assert_eq!(other.name, "b");
    let history = get_observations(&store, "a").unwrap();
    assert_eq!(texts(&history), vec!["two", "one"]);
    for observation in &history {
        assert_eq!(observation.monitoring_target.name, "Renamed");
        assert_eq!(observation.monitoring_target.id, "a");
    }
}

#[test]
fn history_is_newest_first_whatever_the_order_of_arrival() {
    let mut store = store_with(&["a", "b"]);
    let a = ping_target("a", "a");
    let b = ping_target("b", "b");
    add_observation(&mut store, &seen(&a, 300, "a300")).unwrap();
    add_observation(&mut store, &seen(&b, 150, "b150")).unwrap();
    add_observation(&mut store, &seen(&a, 100, "a100")).unwrap();
    add_observation(&mut store, &seen(&a, 200, "a200")).unwrap();
    add_observation(&mut store, &seen(&b, 300, "b300")).unwrap();
    let of_a = get_observations(&store, "a").unwrap();
    assert_eq!(texts(&of_a), vec!["a300", "a200", "a100"]);
    let of_b = observations(&store, "b").unwrap();
    assert_eq!(texts(&of_b), vec!["b300", "b150"]);
    assert_eq!(get_latest(&store, "a").unwrap().description, "a300");
    assert_eq!(status(&store, "b").unwrap().description, "b300");
    assert!(status(&store, "c").is_none());
}

#[test]
fn same_key_twice_is_refused() {
    let mut store = store_with(&["a", "b"]);
    let a = ping_target("a", "a");
    let b = ping_target("b", "b");
    assert!(add_observation(&mut store, &seen(&a, 100, "first")).is_ok());
    assert!(matches!(
        add_observation(&mut store, &seen(&a, 100, "again")),
        Err(StoreError::DuplicateObservation)
    ));
    assert!(add_observation(&mut store, &seen(&b, 100, "other target")).is_ok());
    let mut later = seen(&a, 100, "other nanosecond");
    later.observed_status.timestamp.nanos = 1;
    assert!(add_observation(&mut store, &later).is_ok());
    let of_a = get_observations(&store, "a").unwrap();
    assert_eq!(texts(&of_a), vec!["other nanosecond", "first"]);
}

#[test]
fn last_observations_follow_the_ids_given() {
    let mut store = store_with(&["a", "b", "c"]);
    let a = ping_target("a", "a");
    let c = ping_target("c", "c");
    add_observation(&mut store, &seen(&a, 100, "a100")).unwrap();
    add_observation(&mut store, &seen(&a, 200, "a200")).unwrap();
    add_observation(&mut store, &seen(&c, 50, "c50")).unwrap();
    let ids = vec!["c".to_string(), "b".to_string(), "a".to_string(), "nobody".to_string(), "c".to_string()];
    let latest = get_last_observations(&store, &ids);
    let found: Vec<&str> = latest.iter().map(|s| s.description.as_str()).collect();
    assert_eq!(found, vec!["c50", "a200", "c50"]);
    assert_eq!(latest[1].timestamp, Timestamp { secs: 200, nanos: 0 });
}

#[test]
fn sweep_removes_exactly_the_old_observations_of_all_targets() {
    let mut store = store_with(&["a", "b"]);
    let a = ping_target("a", "a");
    let b = ping_target("b", "b");
    let now = Timestamp { secs: 100 * DAY, nanos: 0 };
    add_observation(&mut store, &seen(&a, 69 * DAY, "a old")).unwrap();
    add_observation(&mut store, &seen(&b, 70 * DAY - 1, "b old")).unwrap();
    add_observation(&mut store, &seen(&a, 70 * DAY, "a on the line")).unwrap();
    add_observation(&mut store, &seen(&b, 70 * DAY + 1, "b recent")).unwrap();
    add_observation(&mut store, &seen(&a, 99 * DAY, "a recent")).unwrap();
    let removed = delete_observations_before(&mut store, now, 30);
    assert_eq!(removed, 2);
    assert_eq!(texts(&get_observations(&store, "a").unwrap()), vec!["a recent", "a on the line"]);
    assert_eq!(texts(&get_observations(&store, "b").unwrap()), vec!["b recent"]);
    assert_eq!(get_monitoring_target_descriptors(&store).len(), 2);
    assert_eq!(delete_observations_before(&mut store, now, 30), 0);
    assert_eq!(delete_observations_before(&mut store, now, 0), 3);
    assert!(get_observations(&store, "a").unwrap().is_empty());
    assert!(has_monitoring_target(&store, "a"));
    assert!(has_monitoring_target(&store, "b"));
}

#[test]
fn sweep_by_the_clock_drops_the_distant_past_only() {
    let mut store = store_with(&["a"]);
    let a = ping_target("a", "a");
    add_observation(&mut store, &seen(&a, 0, "epoch")).unwrap();
    add_observation(&mut store, &seen(&a, 4_000_000_000_000, "far future")).unwrap();
    let (removed, cutoff) = delete_old_observations(&mut store, 30);
    assert_eq!(removed, 1);
    assert!(cutoff.secs > 1_600_000_000 - 30 * DAY);
    assert!(cutoff.secs < 4_000_000_000_000);
    assert_eq!(texts(&get_observations(&store, "a").unwrap()), vec!["far future"]);
}

#[test]
fn cleanup_sweeps_and_says_how_long_to_wait() {
    let mut store = store_with(&["a"]);
    let a = ping_target("a", "a");
    add_observation(&mut store, &seen(&a, 0, "epoch")).unwrap();
    add_observation(&mut store, &seen(&a, 4_000_000_000_000, "far future")).unwrap();
    let mut args = Args::default();
    args.observation_retention_check_interval = 15;
    let sweep = schedule_cleanup(&args, &mut store);
    assert_eq!(sweep.removed, 1);
    assert_eq!(sweep.wait, 15);
    assert!(Timestamp { secs: 0, nanos: 0 }.is_before(&sweep.cutoff));
    assert!(sweep.cutoff.is_before(&Timestamp { secs: 4_000_000_000_000, nanos: 0 }));
    assert_eq!(get_observations(&store, "a").unwrap().len(), 1);
}

#[test]
fn scheduling_declares_targets_and_makes_one_controller_each() {
    let mut store = init_db();
    let declared = vec![ping_target("a", "first"), ping_target("b", "second"), ping_target("a", "third")];
    let controllers = schedule_checks(&mut store, &declared);
    assert_eq!(controllers.len(), 3);
    for (controller, target) in controllers.iter().zip(declared.iter()) {
        assert_eq!(controller.target().id, target.id);
        assert_eq!(controller.target().name, target.name);
        assert_eq!(controller.state(), ControllerState::Waiting);
    }
    let listed = get_monitoring_target_descriptors(&store);
    assert_eq!(listed.len(), 2);
    assert_eq!(listed[0].id, "a");
    assert_eq!(listed[0].name, "third");
    assert_eq!(listed[1].id, "b");
    let none = schedule_checks(&mut store, &vec![]);
    assert!(none.is_empty());
    assert_eq!(get_monitoring_target_descriptors(&store).len(), 2);
}

#[test]
fn cutoff_lies_whole_days_before_now() {
    let now = Timestamp { secs: 100 * DAY + 17, nanos: 250 };
    assert_eq!(now.days_earlier(30), Timestamp { secs: 70 * DAY + 17, nanos: 250 });
    assert_eq!(now.days_earlier(0), now);
    let early = Timestamp { secs: i64::MIN + 5, nanos: 9 };
    assert_eq!(early.days_earlier(1), Timestamp { secs: i64::MIN, nanos: 0 });
    for secs in [69 * DAY, 70 * DAY + 16, 70 * DAY + 17, 70 * DAY + 18, 100 * DAY] {
        for nanos in [0u32, 249, 250, 251] {
            let stamp = Timestamp { secs, nanos };
            assert_eq!(stamp.is_before(&now.days_earlier(30)), stamp.is_older_than(&now, 30));
        }
    }
}

#[test]
fn observation_of_undeclared_target_is_refused() {
    let mut store = store_with(&["a"]);
    let stranger = ping_target("zz", "zz");
    assert!(matches!(
        add_observation(&mut store, &seen(&stranger, 1, "nobody's")),
        Err(StoreError::UnknownTarget)
    ));
    assert!(get_latest(&store, "zz").is_none());
    assert!(get_last_observations(&store, &vec!["zz".to_string()]).is_empty());
    create_or_update_monitoring_target(&mut store, &stranger);
    assert!(add_observation(&mut store, &seen(&stranger, 1, "declared now")).is_ok());
    assert_eq!(get_latest(&store, "zz").unwrap().description, "declared now");
}

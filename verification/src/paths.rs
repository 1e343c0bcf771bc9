//! The read side: the three queries against the store, and the stream of
//! events that one subscriber of the bus hands to its client.

use crate::db::get_last_observations;
use crate::db::get_monitoring_target_descriptors;
use crate::db::get_observations;
use crate::db::Store;
use crate::db::StoreError;
use crate::model::Message;
use crate::model::MessageView;
use crate::model::MonitoringTargetDescriptor;
use crate::model::Observation;
use crate::model::ObservedMonitoringTargetStatus;
use vstd::prelude::*;
use vstd::string::StringExecFns;

verus! {

/// What waiting on a subscription came to.
#[derive(Debug)]
pub enum StreamEvent {
    /// The next message of the bus.
    Received(Message),
    /// The subscriber fell behind and this many messages were dropped for it.
    Lagged(u64),
    /// The bus is gone.
    Closed,
    /// The process is shutting down.
    Shutdown,
}

/// [`StreamEvent`] as a mathematical value, its texts as sequences of characters.
pub enum StreamEventView {
    Received(MessageView),
    Lagged(u64),
    Closed,
    Shutdown,
}

impl View for StreamEvent {
    type V = StreamEventView;

    open spec fn view(&self) -> StreamEventView {
        match self {
            StreamEvent::Received(message) => StreamEventView::Received(message@),
            StreamEvent::Lagged(missed) => StreamEventView::Lagged(*missed),
            StreamEvent::Closed => StreamEventView::Closed,
            StreamEvent::Shutdown => StreamEventView::Shutdown,
        }
    }
}

/// What the stream does about an event.
#[derive(Debug)]
pub enum StreamStep {
    /// Hand the message to the client and go on reading.
    Forward(Message),
    /// Hand nothing on and go on reading.
    Skip,
    /// End the stream.
    Stop,
}

/// [`StreamStep`] as a mathematical value, its texts as sequences of characters.
pub enum StreamStepView {
    Forward(MessageView),
    Skip,
    Stop,
}

impl View for StreamStep {
    type V = StreamStepView;

    open spec fn view(&self) -> StreamStepView {
        match self {
            StreamStep::Forward(message) => StreamStepView::Forward(message@),
            StreamStep::Skip => StreamStepView::Skip,
            StreamStep::Stop => StreamStepView::Stop,
        }
    }
}

impl StreamEventView {
    /// What the stream does about this event: a message is forwarded as it
    /// is, a gap is skipped, and the stream ends with the bus or the process.
    pub open spec fn step(self) -> StreamStepView {
        match self {
            StreamEventView::Received(message) => StreamStepView::Forward(message),
            StreamEventView::Lagged(_) => StreamStepView::Skip,
            StreamEventView::Closed => StreamStepView::Stop,
            StreamEventView::Shutdown => StreamStepView::Stop,
        }
    }
}

/// Decides what the stream does about one event.
pub fn on_stream_event(event: StreamEvent) -> (step: StreamStep)
    ensures
        step@ == event@.step(),
{
    match event {
        StreamEvent::Received(message) => StreamStep::Forward(message),
        StreamEvent::Lagged(_) => StreamStep::Skip,
        StreamEvent::Closed => StreamStep::Stop,
        StreamEvent::Shutdown => StreamStep::Stop,
    }
}

/// The messages a stream forwards when its reads come to `events`, in order
/// and each handled as [`StreamEventView::step`] says: every message received
/// before the first event that ends the stream.
pub open spec fn forwarded(events: Seq<StreamEventView>) -> Seq<MessageView>
    decreases events.len(),
{
    if events.len() == 0 {
        Seq::empty()
    } else {
        match events[0].step() {
            StreamStepView::Forward(message) => seq![message] + forwarded(events.skip(1)),
            StreamStepView::Skip => forwarded(events.skip(1)),
            StreamStepView::Stop => Seq::empty(),
        }
    }
}

/// Everything a freshly attached subscriber hands to its client when its
/// reads come to `reads`, in order: the connected marker first, then what
/// [`forwarded`] says.
pub fn events(reads: &Vec<StreamEvent>) -> (sent: Vec<Message>)
    ensures
        sent@.map_values(|m: Message| m@) == seq![MessageView::AppUpdate] + forwarded(
            reads@.map_values(|e: StreamEvent| e@),
        ),
{
    let ghost all = reads@.map_values(|e: StreamEvent| e@);
    let mut sent: Vec<Message> = Vec::new();
    sent.push(Message::AppUpdate);
    let mut i: usize = 0;
    assert(all.skip(0) =~= all);
    assert(sent@.map_values(|m: Message| m@) =~= seq![MessageView::AppUpdate]);
    while i < reads.len()
        invariant
            0 <= i <= reads.len(),
            all == reads@.map_values(|e: StreamEvent| e@),
            sent@.map_values(|m: Message| m@) + forwarded(all.skip(i as int)) == seq![
                MessageView::AppUpdate,
            ] + forwarded(all),
        decreases reads.len() - i,
    {
        let ghost rest = all.skip(i as int);
        let ghost before = sent@.map_values(|m: Message| m@);
        assert(rest[0] == reads[i as int]@);
        assert(rest.skip(1) =~= all.skip(i + 1));
        match &reads[i] {
            StreamEvent::Received(message) => {
                let copy = message.clone();
                sent.push(copy);
                assert(sent@.map_values(|m: Message| m@) =~= before.push(copy@));
                assert(before.push(copy@) + forwarded(all.skip(i + 1)) =~= before + forwarded(rest));
            },
            StreamEvent::Lagged(_) => {},
            _ => {
                assert(forwarded(rest) =~= Seq::empty());
                assert(sent@.map_values(|m: Message| m@) + forwarded(rest) =~= sent@.map_values(
                    |m: Message| m@,
                ));
                return sent;
            },
        }
        i += 1;
    }
    assert(forwarded(all.skip(i as int)) =~= Seq::empty());
    assert(sent@.map_values(|m: Message| m@) + forwarded(all.skip(i as int)) =~= sent@.map_values(
        |m: Message| m@,
    ));
    sent
}

/// A gap never stalls a stream: a subscriber that fell behind goes on with
/// the messages that follow, exactly as if the gap had not been reported.
pub proof fn law_gap_does_not_stall(
    earlier: Seq<StreamEventView>,
    missed: u64,
    later: Seq<StreamEventView>,
)
    ensures
        forwarded(earlier + seq![StreamEventView::Lagged(missed)] + later) == forwarded(
            earlier + later,
        ),
        StreamEventView::Lagged(missed).step() == StreamStepView::Skip,
    decreases earlier.len(),
{
    let gap = seq![StreamEventView::Lagged(missed)];
    if earlier.len() == 0 {
        assert(earlier + gap + later =~= gap + later);
        assert((gap + later).skip(1) =~= later);
        assert(earlier + later =~= later);
    } else {
        law_gap_does_not_stall(earlier.skip(1), missed, later);
        assert((earlier + gap + later).skip(1) =~= earlier.skip(1) + gap + later);
        assert((earlier + later).skip(1) =~= earlier.skip(1) + later);
        assert((earlier + gap + later)[0] == earlier[0]);
        assert((earlier + later)[0] == earlier[0]);
    }
}

/// Nothing behind the event that ends a stream is forwarded.
pub proof fn law_stream_ends_for_good(
    earlier: Seq<StreamEventView>,
    end: StreamEventView,
    later: Seq<StreamEventView>,
)
    requires
        end.step() == StreamStepView::Stop,
    ensures
        forwarded(earlier + seq![end] + later) == forwarded(earlier + seq![end]),
    decreases earlier.len(),
{
    let last = seq![end];
    if earlier.len() == 0 {
        assert((earlier + last + later)[0] == end);
        assert((earlier + last)[0] == end);
    } else {
        law_stream_ends_for_good(earlier.skip(1), end, later);
        assert((earlier + last + later).skip(1) =~= earlier.skip(1) + last + later);
        assert((earlier + last).skip(1) =~= earlier.skip(1) + last);
        assert((earlier + last + later)[0] == earlier[0]);
        assert((earlier + last)[0] == earlier[0]);
    }
}

/// Every declared target.
pub fn targets(store: &Store) -> (declared: Vec<MonitoringTargetDescriptor>)
    requires
        store.well_formed(),
    ensures
        declared@.map_values(|t: MonitoringTargetDescriptor| t@) == store@.targets,
{
    get_monitoring_target_descriptors(store)
}

/// The newest status of the target with this id, or `None` where nothing was
/// observed for it.
pub fn status(store: &Store, id: &str) -> (newest: Option<ObservedMonitoringTargetStatus>)
    requires
        store.well_formed(),
    ensures
        match newest {
            Some(status) => store@.latest(id@) == Some(status@),
            None => store@.latest(id@) is None,
        },
{
    let mut ids: Vec<String> = Vec::new();
    ids.push(String::from_str(id));
    let ghost names = ids@.map_values(|id: String| id@);
    let mut found = get_last_observations(store, &ids);
    proof {
        assert(names.drop_last() =~= Seq::empty());
        assert(store@.latest_of_each(names.drop_last()) =~= Seq::empty());
        assert(names.last() == id@);
        assert(found@.len() == found@.map_values(|s: ObservedMonitoringTargetStatus| s@).len());
        if found@.len() > 0 {
            assert(found@.map_values(|s: ObservedMonitoringTargetStatus| s@)[0] == found@[0]@);
        }
    }
    if found.len() > 0 {
        Some(found.swap_remove(0))
    } else {
        None
    }
}

/// Every observation of the target with this id, newest first, or
/// `UnknownTarget`.
pub fn observations(store: &Store, id: &str) -> (found: Result<Vec<Observation>, StoreError>)
    requires
        store.well_formed(),
    ensures
        match found {
            Ok(observations) => {
                &&& store@.has_target(id@)
                &&& observations@.len() == store@.history(id@).len()
                &&& forall|k: int|
                    0 <= k < observations@.len() ==> (#[trigger] observations@[k]).observed_status@
                        == store@.history(id@)[k] && observations@[k].monitoring_target@
                        == store@.targets[store@.target_index(id@)]
                &&& forall|a: int, b: int|
                    0 <= a < b < observations@.len() ==> (
                    #[trigger] observations@[b]).observed_status.timestamp.before(
                        (#[trigger] observations@[a]).observed_status.timestamp,
                    )
            },
            Err(error) => !store@.has_target(id@) && error == StoreError::UnknownTarget,
        },
{
    get_observations(store, id)
}

} // verus!

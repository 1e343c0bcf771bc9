//! The per-target retry controller: a state machine that turns ticks and
//! attempt results into exactly one finalized outcome per cycle.

use crate::args::Args;
use crate::bus::publish;
use crate::db::add_observation;
use crate::db::create_or_update_monitoring_target;
use crate::db::delete_old_observations;
use crate::db::entry_of;
use crate::db::Store;
use crate::db::StoreError;
use crate::db::StoreView;
use crate::model::CheckedMonitoringTargetStatus;
use crate::model::CheckedMonitoringTargetStatusView;
use crate::model::Message;
use crate::model::MonitoringTargetDescriptor;
use crate::model::MonitoringTargetDescriptorView;
use crate::model::MonitoringTargetStatus;
use crate::model::Observation;
use crate::model::ObservedMonitoringTargetStatus;
use crate::model::current_time;
use crate::model::Timestamp;
use rocket::tokio::sync::broadcast::Sender;
use vstd::prelude::*;
use vstd::string::StringExecFns;

verus! {

/// How one attempt ended: the probe answered within the deadline, or the
/// deadline passed first.
#[derive(Debug)]
pub enum AttemptResult {
    Completed(CheckedMonitoringTargetStatus),
    TimedOut,
}

/// [`AttemptResult`] as a mathematical value, its texts as sequences of characters.
pub enum AttemptResultView {
    Completed(CheckedMonitoringTargetStatusView),
    TimedOut,
}

impl View for AttemptResult {
    type V = AttemptResultView;

    open spec fn view(&self) -> AttemptResultView {
        match self {
            AttemptResult::Completed(outcome) => AttemptResultView::Completed(outcome@),
            AttemptResult::TimedOut => AttemptResultView::TimedOut,
        }
    }
}

impl Clone for AttemptResult {
    fn clone(&self) -> (copy: AttemptResult)
        ensures
            copy@ == self@,
    {
        match self {
            AttemptResult::Completed(outcome) => AttemptResult::Completed(outcome.clone()),
            AttemptResult::TimedOut => AttemptResult::TimedOut,
        }
    }
}

impl AttemptResultView {
    /// An attempt is healthy when it completed with status `Healthy`.
    pub open spec fn is_healthy(self) -> bool {
        self matches AttemptResultView::Completed(outcome) && outcome.status
            == MonitoringTargetStatus::Healthy
    }

    /// The outcome a cycle ends with when this attempt is its last: the probe's
    /// own outcome, or `Unhealthy` with the text "Timeout".
    pub open spec fn final_outcome(self) -> CheckedMonitoringTargetStatusView {
        match self {
            AttemptResultView::Completed(outcome) => outcome,
            AttemptResultView::TimedOut => CheckedMonitoringTargetStatusView {
                status: MonitoringTargetStatus::Unhealthy,
                description: "Timeout"@,
            },
        }
    }
}

/// Where a controller stands. The number is the count of attempts already
/// made in the running cycle, which is also the count of retries consumed.
#[derive(Debug, Clone, Copy, PartialEq, Eq, Structural)]
pub enum ControllerState {
    /// Between cycles: the next tick starts a cycle.
    Waiting,
    /// An attempt is in flight.
    Attempting(u8),
    /// The last attempt failed and a retry was consumed: the next tick starts
    /// the next attempt.
    AwaitingRetry(u8),
}

/// What a controller learns from outside.
#[derive(Debug)]
pub enum Event {
    Tick,
    Attempt(AttemptResult),
}

/// [`Event`] as a mathematical value, its texts as sequences of characters.
pub enum EventView {
    Tick,
    Attempt(AttemptResultView),
}

impl View for Event {
    type V = EventView;

    open spec fn view(&self) -> EventView {
        match self {
            Event::Tick => EventView::Tick,
            Event::Attempt(result) => EventView::Attempt(result@),
        }
    }
}

/// What the caller does next.
#[derive(Debug)]
pub enum Action {
    /// Run the probe once, under the target's deadline.
    StartAttempt,
    /// Nothing to do until the event that is due arrives.
    Wait,
    /// The cycle is over: record this outcome with this many retries.
    Finalize { outcome: CheckedMonitoringTargetStatus, retries: u8 },
}

/// [`Action`] as a mathematical value, its texts as sequences of characters.
pub enum ActionView {
    StartAttempt,
    Wait,
    Finalize { outcome: CheckedMonitoringTargetStatusView, retries: u8 },
}

impl View for Action {
    type V = ActionView;

    open spec fn view(&self) -> ActionView {
        match self {
            Action::StartAttempt => ActionView::StartAttempt,
            Action::Wait => ActionView::Wait,
            Action::Finalize { outcome, retries } => ActionView::Finalize {
                outcome: outcome@,
                retries: *retries,
            },
        }
    }
}

/// The state a controller moves to on an event, given the retry budget.
pub open spec fn next_state(budget: u8, state: ControllerState, event: EventView) -> ControllerState {
    match (state, event) {
        (ControllerState::Waiting, EventView::Tick) => ControllerState::Attempting(0),
        (ControllerState::AwaitingRetry(made), EventView::Tick) => ControllerState::Attempting(made),
        (ControllerState::Attempting(made), EventView::Attempt(result)) => {
            if result.is_healthy() || made >= budget {
                ControllerState::Waiting
            } else {
                ControllerState::AwaitingRetry((made + 1) as u8)
            }
        },
        _ => state,
    }
}

/// The action a controller asks for on an event, given the retry budget.
pub open spec fn next_action(budget: u8, state: ControllerState, event: EventView) -> ActionView {
    match (state, event) {
        (ControllerState::Waiting, EventView::Tick) => ActionView::StartAttempt,
        (ControllerState::AwaitingRetry(_), EventView::Tick) => ActionView::StartAttempt,
        (ControllerState::Attempting(made), EventView::Attempt(result)) => {
            if result.is_healthy() || made >= budget {
                ActionView::Finalize { outcome: result.final_outcome(), retries: made }
            } else {
                ActionView::Wait
            }
        },
        _ => ActionView::Wait,
    }
}

/// The controller of one target.
#[derive(Debug)]
pub struct Controller {
    target: MonitoringTargetDescriptor,
    state: ControllerState,
}

/// A controller as a mathematical value.
pub struct ControllerView {
    pub target: MonitoringTargetDescriptorView,
    pub state: ControllerState,
}

impl View for Controller {
    type V = ControllerView;

    closed spec fn view(&self) -> ControllerView {
        ControllerView { target: self.target@, state: self.state }
    }
}

impl ControllerView {
    /// The count of attempts made never exceeds the retry budget, and a retry
    /// is awaited only after one was consumed.
    pub open spec fn valid(self) -> bool {
        match self.state {
            ControllerState::Waiting => true,
            ControllerState::Attempting(made) => made <= self.target.retries,
            ControllerState::AwaitingRetry(made) => 1 <= made <= self.target.retries,
        }
    }
}

impl Controller {
    /// The controller's invariant holds.
    pub open spec fn well_formed(&self) -> bool {
        self@.valid()
    }

    /// A controller for `target`, between cycles.
    pub fn new(target: MonitoringTargetDescriptor) -> (controller: Controller)
        ensures
            controller@.target == target@,
            controller@.state == ControllerState::Waiting,
            controller.well_formed(),
    {
        Controller { target, state: ControllerState::Waiting }
    }

    /// Where the controller stands.
    pub fn state(&self) -> (state: ControllerState)
        ensures
            state == self@.state,
    {
        self.state
    }

    /// The target the controller watches.
    pub fn target(&self) -> (target: &MonitoringTargetDescriptor)
        ensures
            target@ == self@.target,
    {
        &self.target
    }

    /// Takes one event and says what to do next. A tick starts an attempt
    /// unless one is in flight. A healthy attempt, or a failed one with no
    /// retry left, ends the cycle; any other failed attempt consumes one retry
    /// and waits for the next tick. An event that is not due changes nothing.
    pub fn step(&mut self, event: Event) -> (action: Action)
        requires
            old(self).well_formed(),
        ensures
            final(self).well_formed(),
            final(self)@.target == old(self)@.target,
            final(self)@.state == next_state(old(self)@.target.retries, old(self)@.state, event@),
            action@ == next_action(old(self)@.target.retries, old(self)@.state, event@),
            action@ matches ActionView::Finalize { retries, .. } ==> retries
                <= old(self)@.target.retries,
    {
        match event {
            Event::Tick => {
                match self.state {
                    ControllerState::Waiting => {
                        self.state = ControllerState::Attempting(0);
                        Action::StartAttempt
                    },
                    ControllerState::AwaitingRetry(made) => {
                        self.state = ControllerState::Attempting(made);
                        Action::StartAttempt
                    },
                    ControllerState::Attempting(_) => Action::Wait,
                }
            },
            Event::Attempt(result) => {
                match self.state {
                    ControllerState::Attempting(made) => {
                        let exhausted: bool = made >= self.target.retries;
                        match result {
                            AttemptResult::Completed(outcome) => {
                                if outcome.status == MonitoringTargetStatus::Healthy || exhausted {
                                    self.state = ControllerState::Waiting;
                                    Action::Finalize { outcome, retries: made }
                                } else {
                                    self.state = ControllerState::AwaitingRetry(made + 1);
                                    Action::Wait
                                }
                            },
                            AttemptResult::TimedOut => {
                                if exhausted {
                                    self.state = ControllerState::Waiting;
                                    Action::Finalize { outcome: timeout_outcome(), retries: made }
                                } else {
                                    self.state = ControllerState::AwaitingRetry(made + 1);
                                    Action::Wait
                                }
                            },
                        }
                    },
                    _ => Action::Wait,
                }
            },
        }
    }
}

/// The outcome recorded for a cycle whose last attempt ran out of time.
pub fn timeout_outcome() -> (outcome: CheckedMonitoringTargetStatus)
    ensures
        outcome@ == AttemptResultView::TimedOut.final_outcome(),
{
    CheckedMonitoringTargetStatus {
        status: MonitoringTargetStatus::Unhealthy,
        description: String::from_str("Timeout"),
    }
}

/// The observation that records a finalized cycle of `target` at `now`.
pub fn observe(
    target: &MonitoringTargetDescriptor,
    outcome: CheckedMonitoringTargetStatus,
    retries: u8,
    now: Timestamp,
) -> (observation: Observation)
    ensures
        observation.monitoring_target@ == target@,
        observation.observed_status.timestamp == now,
        observation.observed_status.status == outcome.status,
        observation.observed_status.description@ == outcome.description@,
        observation.observed_status.retries == retries,
{
    Observation {
        monitoring_target: target.clone(),
        observed_status: ObservedMonitoringTargetStatus {
            timestamp: now,
            status: outcome.status,
            description: outcome.description,
            retries,
        },
    }
}

/// The observation that records a finalized cycle of `target` at the current
/// time.
pub fn observe_now(
    target: &MonitoringTargetDescriptor,
    outcome: CheckedMonitoringTargetStatus,
    retries: u8,
) -> (observation: Observation)
    ensures
        observation.monitoring_target@ == target@,
        observation.observed_status.status == outcome.status,
        observation.observed_status.description@ == outcome.description@,
        observation.observed_status.retries == retries,
{
    let now = current_time();
    observe(target, outcome, retries, now)
}

/// How many attempts at the start of `attempts` are not healthy.
pub open spec fn leading_failures(attempts: Seq<AttemptResultView>) -> nat
    decreases attempts.len(),
{
    if attempts.len() == 0 || attempts[0].is_healthy() {
        0
    } else {
        1 + leading_failures(attempts.skip(1))
    }
}

/// How a cycle ended.
pub struct CycleView {
    /// The finalized outcome.
    pub outcome: CheckedMonitoringTargetStatusView,
    /// Retries consumed.
    pub retries: nat,
    /// Attempts made, the finalizing one included.
    pub attempts: nat,
}

/// The end of a cycle with retry budget `budget` whose attempts, in order,
/// would end as `attempts` say. Every failed attempt before the last consumes
/// one retry, so the cycle ends with the attempt that follows the leading
/// failures, or with attempt number `budget + 1` if the failures go on that
/// long. `None` when `attempts` stops short of that attempt.
pub open spec fn cycle_end(budget: u8, attempts: Seq<AttemptResultView>) -> Option<CycleView> {
    let failures = leading_failures(attempts);
    let last = if failures < budget {
        failures
    } else {
        budget as nat
    };
    if last < attempts.len() {
        Some(CycleView { outcome: attempts[last as int].final_outcome(), retries: last, attempts: last + 1 })
    } else {
        None
    }
}

/// Leading failures count every attempt of an all-failing prefix, and go on
/// counting behind it.
pub proof fn lemma_leading_failures_prefix(attempts: Seq<AttemptResultView>, n: int)
    requires
        0 <= n <= attempts.len(),
        forall|j: int| 0 <= j < n ==> !(#[trigger] attempts[j]).is_healthy(),
    ensures
        leading_failures(attempts) == n + leading_failures(attempts.skip(n)),
    decreases n,
{
    if n == 0 {
        assert(attempts.skip(0) =~= attempts);
    } else {
        let rest = attempts.skip(1);
        assert forall|j: int| 0 <= j < n - 1 implies !(#[trigger] rest[j]).is_healthy() by {
            assert(rest[j] == attempts[j + 1]);
        }
        lemma_leading_failures_prefix(rest, n - 1);
        assert(rest.skip(n - 1) =~= attempts.skip(n));
        assert(!attempts[0].is_healthy());
    }
}

/// Leading failures end at the first healthy attempt, if there is one, and
/// never pass the end of the sequence.
pub proof fn lemma_leading_failures_bound(attempts: Seq<AttemptResultView>)
    ensures
        leading_failures(attempts) <= attempts.len(),
        forall|j: int| 0 <= j < leading_failures(attempts) ==> !(#[trigger] attempts[j]).is_healthy(),
        leading_failures(attempts) < attempts.len() ==> attempts[leading_failures(
            attempts,
        ) as int].is_healthy(),
    decreases attempts.len(),
{
    if attempts.len() == 0 || attempts[0].is_healthy() {
    } else {
        let rest = attempts.skip(1);
        lemma_leading_failures_bound(rest);
        assert forall|j: int| 0 <= j < leading_failures(attempts) implies !(
        #[trigger] attempts[j]).is_healthy() by {
            if j > 0 {
                assert(attempts[j] == rest[j - 1]);
            }
        }
        if leading_failures(attempts) < attempts.len() {
            assert(attempts[leading_failures(attempts) as int] == rest[leading_failures(rest) as int]);
        }
    }
}

/// Runs one cycle of a fresh controller for `target` over the attempt results
/// given, in order, a tick before each, and returns the finalized outcome with
/// the retries consumed. `None` when the results run out before the cycle ends.
/// Results behind the finalizing attempt are never looked at.
pub fn run_cycle(target: &MonitoringTargetDescriptor, attempts: &Vec<AttemptResult>) -> (finalized:
    Option<(CheckedMonitoringTargetStatus, u8)>)
    ensures
        match cycle_end(target.retries, attempts@.map_values(|a: AttemptResult| a@)) {
            Some(end) => finalized matches Some((outcome, retries)) && outcome@ == end.outcome
                && retries == end.retries,
            None => finalized is None,
        },
{
    let ghost results = attempts@.map_values(|a: AttemptResult| a@);
    let mut controller = Controller::new(target.clone());
    let mut i: usize = 0;
    while i < attempts.len()
        invariant
            0 <= i <= attempts.len(),
            i <= target.retries,
            controller@.target == target@,
            controller.well_formed(),
            controller@.state == (if i == 0 {
                ControllerState::Waiting
            } else {
                ControllerState::AwaitingRetry(i as u8)
            }),
            results == attempts@.map_values(|a: AttemptResult| a@),
            forall|j: int| 0 <= j < i ==> !(#[trigger] results[j]).is_healthy(),
        decreases attempts.len() - i,
    {
        let started = controller.step(Event::Tick);
        let action = controller.step(Event::Attempt(attempts[i].clone()));
        proof {
            assert(results[i as int] == attempts[i as int]@);
            lemma_leading_failures_prefix(results, i as int);
            if results[i as int].is_healthy() {
                assert(results.skip(i as int)[0] == results[i as int]);
                assert(leading_failures(results.skip(i as int)) == 0);
            } else {
                lemma_leading_failures_prefix(results, i + 1);
            }
        }
        match action {
            Action::Finalize { outcome, retries } => {
                return Some((outcome, retries));
            },
            _ => {},
        }
        i += 1;
    }
    proof {
        lemma_leading_failures_prefix(results, i as int);
        lemma_leading_failures_bound(results);
    }
    None
}

/// What the state machine does with one cycle: from `state`, a tick and then
/// the result of the attempt it started, again and again, until the machine
/// finalizes. `None` when `attempts` runs out first.
pub open spec fn machine_cycle(
    budget: u8,
    state: ControllerState,
    attempts: Seq<AttemptResultView>,
) -> Option<CycleView>
    decreases attempts.len(),
{
    if attempts.len() == 0 {
        None
    } else {
        let attempting = next_state(budget, state, EventView::Tick);
        let result = EventView::Attempt(attempts[0]);
        match next_action(budget, attempting, result) {
            ActionView::Finalize { outcome, retries } => Some(
                CycleView { outcome, retries: retries as nat, attempts: 1 },
            ),
            _ => match machine_cycle(
                budget,
                next_state(budget, attempting, result),
                attempts.skip(1),
            ) {
                Some(end) => Some(
                    CycleView { outcome: end.outcome, retries: end.retries, attempts: end.attempts + 1 },
                ),
                None => None,
            },
        }
    }
}

/// The state in which a controller waits for a tick after `made` failed
/// attempts.
pub open spec fn waiting_after(made: u8) -> ControllerState {
    if made == 0 {
        ControllerState::Waiting
    } else {
        ControllerState::AwaitingRetry(made)
    }
}

/// From the state after `made` failed attempts the machine ends the cycle
/// with the attempt behind the failures still to come, or with the one that
/// finds the budget used up.
pub proof fn lemma_machine_cycle_from(budget: u8, made: u8, attempts: Seq<AttemptResultView>)
    requires
        made <= budget,
    ensures
        machine_cycle(budget, waiting_after(made), attempts) == ({
            let failures = leading_failures(attempts);
            let last = if failures < budget - made {
                failures
            } else {
                (budget - made) as nat
            };
            if last < attempts.len() {
                Some(
                    CycleView {
                        outcome: attempts[last as int].final_outcome(),
                        retries: (made + last) as nat,
                        attempts: last + 1,
                    },
                )
            } else {
                None
            }
        }),
    decreases attempts.len(),
{
    if attempts.len() > 0 {
        if !attempts[0].is_healthy() && made < budget {
            let rest = attempts.skip(1);
            lemma_machine_cycle_from(budget, (made + 1) as u8, rest);
            lemma_leading_failures_bound(rest);
            let ahead = leading_failures(rest);
            let last = if ahead < budget - made - 1 {
                ahead
            } else {
                (budget - made - 1) as nat
            };
            if last < rest.len() {
                assert(rest[last as int] == attempts[last as int + 1]);
            }
        }
    }
}

/// The state machine and [`cycle_end`] agree: what the controller finalizes,
/// stepping from `Waiting` through ticks and attempts, is the end of the
/// cycle as `cycle_end` states it.
pub proof fn law_machine_follows_cycle_end(budget: u8, attempts: Seq<AttemptResultView>)
    ensures
        machine_cycle(budget, ControllerState::Waiting, attempts) == cycle_end(budget, attempts),
{
    lemma_machine_cycle_from(budget, 0, attempts);
}

/// With no retries allowed a cycle makes exactly one attempt, whatever its
/// result, and records zero retries.
pub proof fn law_no_retries_one_attempt(attempts: Seq<AttemptResultView>)
    requires
        attempts.len() >= 1,
    ensures
        cycle_end(0, attempts) == Some(
            CycleView { outcome: attempts[0].final_outcome(), retries: 0, attempts: 1 },
        ),
{
}

/// The retries a cycle records never exceed the budget, and one more attempt
/// than retries was made. The record equals the budget exactly when the first
/// `budget` attempts all failed.
pub proof fn law_retries_within_budget(budget: u8, attempts: Seq<AttemptResultView>)
    requires
        cycle_end(budget, attempts) is Some,
    ensures
        0 <= cycle_end(budget, attempts)->0.retries <= budget,
        cycle_end(budget, attempts)->0.attempts == cycle_end(budget, attempts)->0.retries + 1,
        cycle_end(budget, attempts)->0.attempts <= attempts.len(),
        cycle_end(budget, attempts)->0.retries == budget <==> (forall|j: int|
            0 <= j < budget ==> !(#[trigger] attempts[j]).is_healthy()),
{
    lemma_leading_failures_bound(attempts);
    if forall|j: int| 0 <= j < budget ==> !(#[trigger] attempts[j]).is_healthy() {
        lemma_leading_failures_prefix(attempts, budget as int);
    }
}

/// A cycle that records the whole budget made `budget + 1` attempts and every
/// one of them failed, the last included. This leaves aside the cycles whose
/// attempt number `budget + 1` is the first healthy one: they record the whole
/// budget too, with a healthy outcome.
pub proof fn law_full_budget_after_failures_only(budget: u8, attempts: Seq<AttemptResultView>)
    requires
        cycle_end(budget, attempts) is Some,
        !(budget < attempts.len() && attempts[budget as int].is_healthy() && (forall|j: int|
            0 <= j < budget ==> !(#[trigger] attempts[j]).is_healthy())),
    ensures
        cycle_end(budget, attempts)->0.retries <= budget,
        cycle_end(budget, attempts)->0.retries == budget ==> cycle_end(budget, attempts)->0.attempts
            == budget + 1 && (forall|j: int|
            0 <= j <= budget ==> !(#[trigger] attempts[j]).is_healthy()),
{
    law_retries_within_budget(budget, attempts);
}

/// The first healthy attempt of a cycle ends it at once: its outcome is the
/// one recorded, the retries recorded are the failures before it, and no
/// later attempt is made.
pub proof fn law_first_healthy_finalizes(budget: u8, attempts: Seq<AttemptResultView>, first: int)
    requires
        0 <= first < attempts.len(),
        first <= budget,
        attempts[first].is_healthy(),
        forall|j: int| 0 <= j < first ==> !(#[trigger] attempts[j]).is_healthy(),
    ensures
        cycle_end(budget, attempts) == Some(
            CycleView {
                outcome: attempts[first].final_outcome(),
                retries: first as nat,
                attempts: (first + 1) as nat,
            },
        ),
{
    lemma_leading_failures_prefix(attempts, first);
    assert(attempts.skip(first)[0] == attempts[first]);
}

/// What a cycle records depends on nothing behind its finalizing attempt.
pub proof fn law_later_attempts_ignored(
    budget: u8,
    attempts: Seq<AttemptResultView>,
    more: Seq<AttemptResultView>,
)
    requires
        cycle_end(budget, attempts) is Some,
    ensures
        cycle_end(budget, attempts + more) == cycle_end(budget, attempts),
{
    let all = attempts + more;
    let n = leading_failures(attempts);
    lemma_leading_failures_bound(attempts);
    assert forall|j: int| 0 <= j < n implies !(#[trigger] all[j]).is_healthy() by {
        assert(all[j] == attempts[j]);
    }
    lemma_leading_failures_prefix(all, n as int);
    if n < attempts.len() {
        assert(all.skip(n as int)[0] == attempts[n as int]);
    } else {
        assert(budget < n);
    }
    let last = if n < budget {
        n
    } else {
        budget as nat
    };
    assert(all[last as int] == attempts[last as int]);
}

/// Records a finalized cycle: appends the observation to the store and, where
/// the store took it, publishes it on the bus. Where the store refuses it, the
/// store is unchanged, nothing is published and the error is handed on.
pub fn record_observation(store: &mut Store, sender: &Sender<Message>, observation: Observation) -> (recorded:
    Result<(), StoreError>)
    requires
        old(store).well_formed(),
    ensures
        final(store).well_formed(),
        match recorded {
            Ok(()) => {
                &&& old(store)@.refusal(
                    observation.monitoring_target.id@,
                    observation.observed_status.timestamp,
                ) is None
                &&& old(store)@.logged(entry_of(observation), final(store)@)
            },
            Err(error) => {
                &&& old(store)@.refusal(
                    observation.monitoring_target.id@,
                    observation.observed_status.timestamp,
                ) == Some(error)
                &&& final(store)@ == old(store)@
            },
        },
{
    match add_observation(store, &observation) {
        Ok(()) => {
            publish(sender, Message::Observation(observation));
            Ok(())
        },
        Err(error) => Err(error),
    }
}

/// The store after declaring each of `targets`, in order.
pub open spec fn declared_all(store: StoreView, targets: Seq<MonitoringTargetDescriptorView>) -> StoreView
    decreases targets.len(),
{
    if targets.len() == 0 {
        store
    } else {
        declared_all(store, targets.drop_last()).upsert(targets.last())
    }
}

/// Starts monitoring: declares each target to the store, in order, and
/// returns one controller per target, in the same order, each between cycles.
/// An empty list gives no controller.
pub fn schedule_checks(store: &mut Store, targets: &Vec<MonitoringTargetDescriptor>) -> (controllers:
    Vec<Controller>)
    requires
        old(store).well_formed(),
    ensures
        final(store).well_formed(),
        final(store)@ == declared_all(
            old(store)@,
            targets@.map_values(|t: MonitoringTargetDescriptor| t@),
        ),
        controllers@.len() == targets@.len(),
        forall|i: int|
            0 <= i < targets@.len() ==> (#[trigger] controllers@[i])@.target == targets@[i]@
                && controllers@[i]@.state == ControllerState::Waiting
                && controllers@[i].well_formed(),
{
    let ghost all = targets@.map_values(|t: MonitoringTargetDescriptor| t@);
    let ghost start = store@;
    let mut controllers: Vec<Controller> = Vec::new();
    let mut i: usize = 0;
    assert(all.take(0) =~= Seq::empty());
    while i < targets.len()
        invariant
            0 <= i <= targets.len(),
            all == targets@.map_values(|t: MonitoringTargetDescriptor| t@),
            store.well_formed(),
            store@ == declared_all(start, all.take(i as int)),
            controllers@.len() == i,
            forall|j: int|
                0 <= j < i ==> (#[trigger] controllers@[j])@.target == targets@[j]@
                    && controllers@[j]@.state == ControllerState::Waiting
                    && controllers@[j].well_formed(),
        decreases targets.len() - i,
    {
        let ghost upto = all.take(i + 1);
        assert(upto.drop_last() =~= all.take(i as int));
        assert(upto.last() == targets@[i as int]@);
        create_or_update_monitoring_target(store, &targets[i]);
        controllers.push(Controller::new(targets[i].clone()));
        i += 1;
    }
    assert(all.take(i as int) =~= all);
    controllers
}

/// What one sweep of the store did, and when the next one is due.
#[derive(Debug, Clone, Copy)]
pub struct Sweep {
    /// How many observations were removed.
    pub removed: usize,
    /// The instant before which every observation was removed.
    pub cutoff: Timestamp,
    /// How many seconds to wait for the next sweep.
    pub wait: u64,
}

/// One sweep of the store with the settings of `args`: removes the
/// observations that are older than the retention time at the current time,
/// as [`delete_old_observations`] does, and says when the next sweep is due.
pub fn schedule_cleanup(args: &Args, store: &mut Store) -> (sweep: Sweep)
    requires
        old(store).well_formed(),
    ensures
        final(store).well_formed(),
        final(store)@.targets == old(store)@.targets,
        sweep.removed <= old(store)@.observations.len(),
        final(store)@.observations == old(store)@.observations.skip(sweep.removed as int),
        forall|i: int|
            0 <= i < sweep.removed ==> (#[trigger] old(
                store,
            )@.observations[i]).status.timestamp.before(sweep.cutoff),
        forall|i: int|
            sweep.removed <= i < old(store)@.observations.len() ==> !(#[trigger] old(
                store,
            )@.observations[i]).status.timestamp.before(sweep.cutoff),
        sweep.wait == args.observation_retention_check_interval,
{
    let swept = delete_old_observations(store, args.observation_retention_duration);
    Sweep { removed: swept.0, cutoff: swept.1, wait: args.observation_retention_check_interval }
}

} // verus!

//! The observation store: target descriptors keyed by id, and the log of
//! observations keyed by target id and timestamp, kept in order of time.

use crate::model::MonitoringTargetDescriptor;
use crate::model::MonitoringTargetDescriptorView;
use crate::model::Observation;
use crate::model::ObservedMonitoringTargetStatus;
use crate::model::ObservedMonitoringTargetStatusView;
use crate::model::current_time;
use crate::model::Timestamp;
use vstd::prelude::*;
use vstd::string::StringExecFns;

verus! {

/// Why the store refused a request.
#[derive(Debug, Clone, Copy, PartialEq, Eq, Structural)]
pub enum StoreError {
    /// No target with that id was declared.
    UnknownTarget,
    /// The target already has an observation with that timestamp.
    DuplicateObservation,
}

/// One entry of the observation log.
#[derive(Debug)]
struct StoredObservation {
    target_id: String,
    status: ObservedMonitoringTargetStatus,
}

/// One entry of the observation log as a mathematical value: whose it is, and
/// the status observed.
pub struct StoredObservationView {
    pub target_id: Seq<char>,
    pub status: ObservedMonitoringTargetStatusView,
}

impl View for StoredObservation {
    type V = StoredObservationView;

    closed spec fn view(&self) -> StoredObservationView {
        StoredObservationView { target_id: self.target_id@, status: self.status@ }
    }
}

/// The store: declared targets and the observation log.
#[derive(Debug)]
pub struct Store {
    targets: Vec<MonitoringTargetDescriptor>,
    observations: Vec<StoredObservation>,
}

/// The store as a mathematical value.
pub struct StoreView {
    /// The declared targets, in the order in which their ids first came.
    pub targets: Seq<MonitoringTargetDescriptorView>,
    /// The log, oldest first.
    pub observations: Seq<StoredObservationView>,
}

impl View for Store {
    type V = StoreView;

    closed spec fn view(&self) -> StoreView {
        StoreView {
            targets: self.targets@.map_values(|t: MonitoringTargetDescriptor| t@),
            observations: self.observations@.map_values(|o: StoredObservation| o@),
        }
    }
}

/// The statuses logged for `id`, newest first.
pub open spec fn history_of(log: Seq<StoredObservationView>, id: Seq<char>) -> Seq<
    ObservedMonitoringTargetStatusView,
>
    decreases log.len(),
{
    if log.len() == 0 {
        Seq::empty()
    } else {
        let older = history_of(log.drop_last(), id);
        if log.last().target_id == id {
            seq![log.last().status] + older
        } else {
            older
        }
    }
}

/// No entry of the log stands before an older one.
pub open spec fn in_time_order(log: Seq<StoredObservationView>) -> bool {
    forall|i: int, j: int|
        0 <= i < j < log.len() ==> !(#[trigger] log[j]).status.timestamp.before(
            (#[trigger] log[i]).status.timestamp,
        )
}

/// No two entries of the log share target id and timestamp.
pub open spec fn keys_distinct(log: Seq<StoredObservationView>) -> bool {
    forall|i: int, j: int|
        0 <= i < j < log.len() ==> !((#[trigger] log[i]).target_id == (#[trigger] log[j]).target_id
            && log[i].status.timestamp == log[j].status.timestamp)
}

impl StoreView {
    /// Whether a target with this id is declared.
    pub open spec fn has_target(self, id: Seq<char>) -> bool {
        exists|i: int| 0 <= i < self.targets.len() && (#[trigger] self.targets[i]).id == id
    }

    /// The place of the target with this id among the declared targets.
    pub open spec fn target_index(self, id: Seq<char>) -> int {
        choose|i: int| 0 <= i < self.targets.len() && (#[trigger] self.targets[i]).id == id
    }

    /// The store after declaring `target`: where its id is already declared,
    /// the target of that id is replaced; else `target` is added behind the
    /// others. The log is the same.
    pub open spec fn upsert(self, target: MonitoringTargetDescriptorView) -> StoreView {
        StoreView {
            targets: if self.has_target(target.id) {
                self.targets.update(self.target_index(target.id), target)
            } else {
                self.targets.push(target)
            },
            observations: self.observations,
        }
    }

    /// Whether `after` is this store with `entry` put into the log at its
    /// place in time: behind every entry that is not newer, before every
    /// newer one. The targets are the same.
    pub open spec fn logged(self, entry: StoredObservationView, after: StoreView) -> bool {
        &&& after.targets == self.targets
        &&& exists|k: int|
            {
                &&& 0 <= k <= self.observations.len()
                &&& after.observations == #[trigger] self.observations.insert(k, entry)
                &&& forall|i: int|
                    0 <= i < k ==> !entry.status.timestamp.before(
                        (#[trigger] self.observations[i]).status.timestamp,
                    )
                &&& forall|i: int|
                    k <= i < self.observations.len() ==> entry.status.timestamp.before(
                        (#[trigger] self.observations[i]).status.timestamp,
                    )
            }
    }

    /// Whether the log holds an entry with this key.
    pub open spec fn has_observation(self, id: Seq<char>, timestamp: Timestamp) -> bool {
        exists|i: int|
            0 <= i < self.observations.len() && (#[trigger] self.observations[i]).target_id == id
                && self.observations[i].status.timestamp == timestamp
    }

    /// The store's invariant: target ids are distinct, every log entry
    /// belongs to a declared target, log keys are distinct, and the log is in
    /// order of time.
    pub open spec fn valid(self) -> bool {
        &&& forall|i: int, j: int|
            0 <= i < j < self.targets.len() ==> (#[trigger] self.targets[i]).id != (
            #[trigger] self.targets[j]).id
        &&& forall|i: int|
            0 <= i < self.observations.len() ==> self.has_target(
                (#[trigger] self.observations[i]).target_id,
            )
        &&& keys_distinct(self.observations)
        &&& in_time_order(self.observations)
    }

    /// Why the store refuses an observation with this key, if it does: its
    /// target is not declared, or the target has an observation with the same
    /// timestamp already.
    pub open spec fn refusal(self, id: Seq<char>, timestamp: Timestamp) -> Option<StoreError> {
        if !self.has_target(id) {
            Some(StoreError::UnknownTarget)
        } else if self.has_observation(id, timestamp) {
            Some(StoreError::DuplicateObservation)
        } else {
            None
        }
    }

    /// The statuses logged for `id`, newest first.
    pub open spec fn history(self, id: Seq<char>) -> Seq<ObservedMonitoringTargetStatusView> {
        history_of(self.observations, id)
    }

    /// The newest status logged for `id`, if there is one.
    pub open spec fn latest(self, id: Seq<char>) -> Option<ObservedMonitoringTargetStatusView> {
        if self.history(id).len() > 0 {
            Some(self.history(id)[0])
        } else {
            None
        }
    }

    /// The newest status of each id that has one, in the order of `ids`.
    pub open spec fn latest_of_each(self, ids: Seq<Seq<char>>) -> Seq<
        ObservedMonitoringTargetStatusView,
    >
        decreases ids.len(),
    {
        if ids.len() == 0 {
            Seq::empty()
        } else {
            let before = self.latest_of_each(ids.drop_last());
            match self.latest(ids.last()) {
                Some(status) => before.push(status),
                None => before,
            }
        }
    }
}

fn same_text(a: &String, b: &String) -> (same: bool)
    ensures
        same == (a@ == b@),
{
    *a == *b
}

impl Store {
    /// The store's invariant holds.
    pub open spec fn well_formed(&self) -> bool {
        self@.valid()
    }

    fn find_target(&self, id: &String) -> (found: Option<usize>)
        requires
            self.well_formed(),
        ensures
            match found {
                Some(i) => i < self@.targets.len() && self@.targets[i as int].id == id@
                    && self@.has_target(id@) && self@.target_index(id@) == i,
                None => !self@.has_target(id@),
            },
    {
        let mut i: usize = 0;
        while i < self.targets.len()
            invariant
                0 <= i <= self.targets.len(),
                self.well_formed(),
                forall|j: int| 0 <= j < i ==> (#[trigger] self@.targets[j]).id != id@,
            decreases self.targets.len() - i,
        {
            if same_text(&self.targets[i].id, id) {
                assert(self@.targets[i as int].id == id@);
                assert(self@.has_target(id@));
                return Some(i);
            }
            i += 1;
        }
        None
    }
}

/// A store with no target and no observation.
pub fn init_db() -> (store: Store)
    ensures
        store.well_formed(),
        store@.targets.len() == 0,
        store@.observations.len() == 0,
{
    Store { targets: Vec::new(), observations: Vec::new() }
}

/// Declares a target. Where its id is already declared, every other field of
/// that target is replaced at once; else the target is added behind the
/// others. The log is left as it is.
pub fn create_or_update_monitoring_target(
    store: &mut Store,
    monitoring_target: &MonitoringTargetDescriptor,
)
    requires
        old(store).well_formed(),
    ensures
        final(store).well_formed(),
        final(store)@ == old(store)@.upsert(monitoring_target@),
{
    let found = store.find_target(&monitoring_target.id);
    let ghost before = store@;
    proof {
        lemma_upsert_keeps_valid(before, monitoring_target@);
    }
    match found {
        Some(i) => {
            store.targets[i] = monitoring_target.clone();
            assert(store@.targets =~= before.targets.update(i as int, monitoring_target@));
        },
        None => {
            store.targets.push(monitoring_target.clone());
            assert(store@.targets =~= before.targets.push(monitoring_target@));
        },
    }
    assert(store@.observations =~= before.observations);
}

/// Whether a target with this id is declared.
pub fn has_monitoring_target(store: &Store, id: &str) -> (declared: bool)
    requires
        store.well_formed(),
    ensures
        declared == store@.has_target(id@),
{
    let key = String::from_str(id);
    store.find_target(&key).is_some()
}

/// The declared target with this id, or `UnknownTarget`.
pub fn get_monitoring_target(store: &Store, id: &str) -> (found: Result<
    MonitoringTargetDescriptor,
    StoreError,
>)
    requires
        store.well_formed(),
    ensures
        match found {
            Ok(target) => store@.has_target(id@) && target@ == store@.targets[store@.target_index(
                id@,
            )],
            Err(error) => !store@.has_target(id@) && error == StoreError::UnknownTarget,
        },
{
    let key = String::from_str(id);
    match store.find_target(&key) {
        Some(i) => Ok(store.targets[i].clone()),
        None => Err(StoreError::UnknownTarget),
    }
}

/// Every declared target.
pub fn get_monitoring_target_descriptors(store: &Store) -> (targets: Vec<MonitoringTargetDescriptor>)
    requires
        store.well_formed(),
    ensures
        targets@.map_values(|t: MonitoringTargetDescriptor| t@) == store@.targets,
{
    let mut targets: Vec<MonitoringTargetDescriptor> = Vec::new();
    let mut i: usize = 0;
    while i < store.targets.len()
        invariant
            0 <= i <= store.targets.len(),
            targets@.map_values(|t: MonitoringTargetDescriptor| t@) == store@.targets.take(i as int),
        decreases store.targets.len() - i,
    {
        let ghost before = targets@;
        let target = store.targets[i].clone();
        targets.push(target);
        assert(targets@.map_values(|t: MonitoringTargetDescriptor| t@) =~= before.map_values(
            |t: MonitoringTargetDescriptor| t@,
        ).push(target@));
        assert(store@.targets.take(i + 1) =~= store@.targets.take(i as int).push(
            store@.targets[i as int],
        ));
        i += 1;
    }
    assert(store@.targets.take(i as int) =~= store@.targets);
    targets
}

/// The log entry that records `observation`.
pub open spec fn entry_of(observation: Observation) -> StoredObservationView {
    StoredObservationView {
        target_id: observation.monitoring_target.id@,
        status: observation.observed_status@,
    }
}

/// Appends an observation to the log, or refuses it and changes nothing:
/// with `UnknownTarget` where its target is not declared, with
/// `DuplicateObservation` where the target already has an observation with
/// the same timestamp. The entry goes behind every entry that is not newer
/// and before every newer one.
pub fn add_observation(store: &mut Store, observation: &Observation) -> (added: Result<
    (),
    StoreError,
>)
    requires
        old(store).well_formed(),
    ensures
        final(store).well_formed(),
        match added {
            Ok(()) => {
                &&& old(store)@.refusal(
                    observation.monitoring_target.id@,
                    observation.observed_status.timestamp,
                ) is None
                &&& old(store)@.logged(entry_of(*observation), final(store)@)
            },
            Err(error) => {
                &&& old(store)@.refusal(
                    observation.monitoring_target.id@,
                    observation.observed_status.timestamp,
                ) == Some(error)
                &&& final(store)@ == old(store)@
            },
        },
{
    let ghost before = store@;
    let ghost entry = entry_of(*observation);
    if store.find_target(&observation.monitoring_target.id).is_none() {
        return Err(StoreError::UnknownTarget);
    }
    let timestamp = observation.observed_status.timestamp;
    let len = store.observations.len();
    let mut i: usize = 0;
    while i < len
        invariant
            0 <= i <= len,
            len == store.observations.len(),
            store@ == before,
            before.valid(),
            before.has_target(observation.monitoring_target.id@),
            timestamp == observation.observed_status.timestamp,
            forall|j: int|
                0 <= j < i ==> !((#[trigger] before.observations[j]).target_id
                    == observation.monitoring_target.id@ && before.observations[j].status.timestamp
                    == timestamp),
        decreases len - i,
    {
        if store.observations[i].status.timestamp == timestamp && same_text(
            &store.observations[i].target_id,
            &observation.monitoring_target.id,
        ) {
            assert(before.observations[i as int].target_id == observation.monitoring_target.id@);
            return Err(StoreError::DuplicateObservation);
        }
        i += 1;
    }
    let mut k: usize = 0;
    while k < len && !timestamp.is_before(&store.observations[k].status.timestamp)
        invariant
            0 <= k <= len,
            len == store.observations.len(),
            store@ == before,
            forall|j: int|
                0 <= j < k ==> !timestamp.before(
                    (#[trigger] before.observations[j]).status.timestamp,
                ),
        decreases len - k,
    {
        k += 1;
    }
    assert forall|j: int| k <= j < len implies timestamp.before(
        (#[trigger] before.observations[j]).status.timestamp,
    ) by {
        if j > k {
            assert(!before.observations[j].status.timestamp.before(
                before.observations[k as int].status.timestamp,
            ));
        }
    }
    let stored = StoredObservation {
        target_id: observation.monitoring_target.id.clone(),
        status: observation.observed_status.clone(),
    };
    assert(stored@ == entry);
    store.observations.insert(k, stored);
    proof {
        let after = store@.observations;
        assert(after =~= before.observations.insert(k as int, entry));
        assert(store@.targets =~= before.targets);
        assert forall|a: int, b: int| 0 <= a < b < after.len() implies !(#[trigger] after[b]).status.timestamp.before(
            (#[trigger] after[a]).status.timestamp,
        ) by {
            lemma_inserted(before.observations, k as int, entry, a);
            lemma_inserted(before.observations, k as int, entry, b);
        }
        assert forall|a: int, b: int| 0 <= a < b < after.len() implies !((#[trigger] after[a]).target_id
            == (#[trigger] after[b]).target_id && after[a].status.timestamp
            == after[b].status.timestamp) by {
            lemma_inserted(before.observations, k as int, entry, a);
            lemma_inserted(before.observations, k as int, entry, b);
        }
        assert forall|a: int| 0 <= a < after.len() implies store@.has_target(
            (#[trigger] after[a]).target_id,
        ) by {
            lemma_inserted(before.observations, k as int, entry, a);
            lemma_same_targets(before, store@, after[a].target_id);
        }
    }
    Ok(())
}

/// The newest status logged for the target with this id, if there is one.
pub fn get_latest(store: &Store, id: &str) -> (latest: Option<ObservedMonitoringTargetStatus>)
    requires
        store.well_formed(),
    ensures
        match latest {
            Some(status) => store@.latest(id@) == Some(status@),
            None => store@.latest(id@) is None,
        },
{
    let key = String::from_str(id);
    let mut i: usize = store.observations.len();
    assert(store@.observations.take(i as int) =~= store@.observations);
    while i > 0
        invariant
            0 <= i <= store.observations.len(),
            key@ == id@,
            history_of(store@.observations, id@) == history_of(
                store@.observations.take(i as int),
                id@,
            ),
        decreases i,
    {
        let ghost prefix = store@.observations.take(i as int);
        assert(prefix.drop_last() =~= store@.observations.take(i - 1));
        assert(prefix.last() == store@.observations[i - 1]);
        if same_text(&store.observations[i - 1].target_id, &key) {
            return Some(store.observations[i - 1].status.clone());
        }
        i -= 1;
    }
    None
}

/// The newest status of each of the targets named, in the order of `ids`;
/// an id without observations contributes nothing.
pub fn get_last_observations(store: &Store, ids: &Vec<String>) -> (latest: Vec<
    ObservedMonitoringTargetStatus,
>)
    requires
        store.well_formed(),
    ensures
        latest@.map_values(|s: ObservedMonitoringTargetStatus| s@) == store@.latest_of_each(
            ids@.map_values(|id: String| id@),
        ),
{
    let ghost names = ids@.map_values(|id: String| id@);
    let mut latest: Vec<ObservedMonitoringTargetStatus> = Vec::new();
    let mut i: usize = 0;
    assert(latest@.map_values(|s: ObservedMonitoringTargetStatus| s@) =~= store@.latest_of_each(
        names.take(0),
    ));
    while i < ids.len()
        invariant
            0 <= i <= ids.len(),
            store.well_formed(),
            names == ids@.map_values(|id: String| id@),
            latest@.map_values(|s: ObservedMonitoringTargetStatus| s@) == store@.latest_of_each(
                names.take(i as int),
            ),
        decreases ids.len() - i,
    {
        let ghost before = latest@;
        let ghost upto = names.take(i + 1);
        assert(upto.drop_last() =~= names.take(i as int));
        assert(upto.last() == ids[i as int]@);
        match get_latest(store, ids[i].as_str()) {
            Some(status) => {
                latest.push(status);
                assert(latest@.map_values(|s: ObservedMonitoringTargetStatus| s@)
                    =~= before.map_values(|s: ObservedMonitoringTargetStatus| s@).push(status@));
            },
            None => {},
        }
        i += 1;
    }
    assert(names.take(i as int) =~= names);
    latest
}

/// Every observation of the target with this id, newest first, each paired
/// with the target as it is declared now; `UnknownTarget` where no such
/// target is declared.
pub fn get_observations(store: &Store, id: &str) -> (found: Result<Vec<Observation>, StoreError>)
    requires
        store.well_formed(),
    ensures
        match found {
            Ok(observations) => {
                &&& store@.has_target(id@)
                &&& observations@.len() == store@.history(id@).len()
                &&& forall|k: int|
                    0 <= k < observations@.len() ==> (#[trigger] observations@[k]).observed_status@
                        == store@.history(id@)[k] && observations@[k].monitoring_target@
                        == store@.targets[store@.target_index(id@)]
                &&& forall|a: int, b: int|
                    0 <= a < b < observations@.len() ==> (
                    #[trigger] observations@[b]).observed_status.timestamp.before(
                        (#[trigger] observations@[a]).observed_status.timestamp,
                    )
            },
            Err(error) => !store@.has_target(id@) && error == StoreError::UnknownTarget,
        },
{
    let key = String::from_str(id);
    let target = match store.find_target(&key) {
        Some(i) => &store.targets[i],
        None => {
            return Err(StoreError::UnknownTarget);
        },
    };
    let mut observations: Vec<Observation> = Vec::new();
    let mut i: usize = store.observations.len();
    assert(store@.observations.take(i as int) =~= store@.observations);
    while i > 0
        invariant
            0 <= i <= store.observations.len(),
            key@ == id@,
            target@ == store@.targets[store@.target_index(id@)],
            observations@.len() + history_of(store@.observations.take(i as int), id@).len()
                == store@.history(id@).len(),
            forall|k: int|
                0 <= k < observations@.len() ==> (#[trigger] observations@[k]).observed_status@
                    == store@.history(id@)[k] && observations@[k].monitoring_target@ == target@,
            forall|k: int|
                0 <= k < history_of(store@.observations.take(i as int), id@).len() ==> history_of(
                    store@.observations.take(i as int),
                    id@,
                )[k] == store@.history(id@)[observations@.len() + k],
        decreases i,
    {
        let ghost prefix = store@.observations.take(i as int);
        assert(prefix.drop_last() =~= store@.observations.take(i - 1));
        assert(prefix.last() == store@.observations[i - 1]);
        if same_text(&store.observations[i - 1].target_id, &key) {
            let ghost older = history_of(prefix.drop_last(), id@);
            assert(history_of(prefix, id@) == seq![prefix.last().status] + older);
            assert(history_of(prefix, id@)[0] == prefix.last().status);
            assert forall|k: int| 0 <= k < older.len() implies older[k] == history_of(prefix, id@)[k
                + 1] by {}
            observations.push(
                Observation {
                    observed_status: store.observations[i - 1].status.clone(),
                    monitoring_target: target.clone(),
                },
            );
        }
        i -= 1;
    }
    proof {
        law_history_newest_first(store@.observations, id@);
    }
    Ok(observations)
}

/// Removes from the log, across all targets, exactly the observations that
/// are more than `keep_days` days older than `now`, and returns how many they
/// were. They are the oldest entries of the log. The targets are left as they
/// are.
pub fn delete_observations_before(store: &mut Store, now: Timestamp, keep_days: u32) -> (removed:
    usize)
    requires
        old(store).well_formed(),
    ensures
        final(store).well_formed(),
        final(store)@.targets == old(store)@.targets,
        removed <= old(store)@.observations.len(),
        final(store)@.observations == old(store)@.observations.skip(removed as int),
        forall|i: int|
            0 <= i < removed ==> (#[trigger] old(store)@.observations[i]).status.timestamp.older_than(
                now,
                keep_days,
            ),
        forall|i: int|
            removed <= i < old(store)@.observations.len() ==> !(#[trigger] old(
                store,
            )@.observations[i]).status.timestamp.older_than(now, keep_days),
{
    let ghost before = store@;
    let len = store.observations.len();
    let mut k: usize = 0;
    while k < len && store.observations[k].status.timestamp.is_older_than(&now, keep_days)
        invariant
            0 <= k <= len,
            len == store.observations.len(),
            store@ == before,
            forall|j: int|
                0 <= j < k ==> (#[trigger] before.observations[j]).status.timestamp.older_than(
                    now,
                    keep_days,
                ),
        decreases len - k,
    {
        k += 1;
    }
    assert forall|j: int| k <= j < len implies !(#[trigger] before.observations[j]).status.timestamp.older_than(
        now,
        keep_days,
    ) by {
        if j > k {
            assert(!before.observations[j].status.timestamp.before(
                before.observations[k as int].status.timestamp,
            ));
            if before.observations[j].status.timestamp.older_than(now, keep_days) {
                lemma_older_stays_older(
                    before.observations[k as int].status.timestamp,
                    before.observations[j].status.timestamp,
                    now,
                    keep_days,
                );
            }
        }
    }
    let kept = store.observations.split_off(k);
    store.observations = kept;
    proof {
        let after = store@.observations;
        assert(after =~= before.observations.skip(k as int));
        assert(store@.targets =~= before.targets);
        assert forall|a: int, b: int| 0 <= a < b < after.len() implies !(#[trigger] after[b]).status.timestamp.before(
            (#[trigger] after[a]).status.timestamp,
        ) by {
            assert(after[a] == before.observations[a + k]);
            assert(after[b] == before.observations[b + k]);
        }
        assert forall|a: int, b: int| 0 <= a < b < after.len() implies !((#[trigger] after[a]).target_id
            == (#[trigger] after[b]).target_id && after[a].status.timestamp
            == after[b].status.timestamp) by {
            assert(after[a] == before.observations[a + k]);
            assert(after[b] == before.observations[b + k]);
        }
        assert forall|a: int| 0 <= a < after.len() implies store@.has_target(
            (#[trigger] after[a]).target_id,
        ) by {
            assert(after[a] == before.observations[a + k]);
            lemma_same_targets(before, store@, after[a].target_id);
        }
    }
    k
}

/// Removes from the log, across all targets, the observations that are more
/// than `keep_days` days older than the current time, and returns how many
/// they were and the instant that parts them from the rest: exactly the
/// entries before it are gone. The targets are left as they are.
pub fn delete_old_observations(store: &mut Store, keep_days: u32) -> (swept: (usize, Timestamp))
    requires
        old(store).well_formed(),
    ensures
        final(store).well_formed(),
        final(store)@.targets == old(store)@.targets,
        swept.0 <= old(store)@.observations.len(),
        final(store)@.observations == old(store)@.observations.skip(swept.0 as int),
        forall|i: int|
            0 <= i < swept.0 ==> (#[trigger] old(store)@.observations[i]).status.timestamp.before(
                swept.1,
            ),
        forall|i: int|
            swept.0 <= i < old(store)@.observations.len() ==> !(#[trigger] old(
                store,
            )@.observations[i]).status.timestamp.before(swept.1),
{
    let now = current_time();
    let cutoff = now.days_earlier(keep_days);
    let removed = delete_observations_before(store, now, keep_days);
    (removed, cutoff)
}

/// Stores with the same targets have the same ids declared.
proof fn lemma_same_targets(before: StoreView, after: StoreView, id: Seq<char>)
    requires
        before.targets == after.targets,
    ensures
        before.has_target(id) == after.has_target(id),
{
    if before.has_target(id) {
        let i = before.target_index(id);
        assert(after.targets[i].id == id);
    }
    if after.has_target(id) {
        let i = after.target_index(id);
        assert(before.targets[i].id == id);
    }
}

/// Declaring a target keeps the store's invariant and every id that was
/// declared, and the target's own id is declared afterwards.
pub proof fn lemma_upsert_keeps_valid(store: StoreView, target: MonitoringTargetDescriptorView)
    requires
        store.valid(),
    ensures
        store.upsert(target).valid(),
        store.upsert(target).has_target(target.id),
        forall|id: Seq<char>| store.has_target(id) ==> #[trigger] store.upsert(target).has_target(id),
{
    let after = store.upsert(target);
    if store.has_target(target.id) {
        let at = store.target_index(target.id);
        assert(after.targets[at].id == target.id);
        assert forall|i: int, j: int| 0 <= i < j < after.targets.len() implies (
        #[trigger] after.targets[i]).id != (#[trigger] after.targets[j]).id by {
            assert(store.targets[i].id != store.targets[j].id);
        }
        assert forall|id: Seq<char>| store.has_target(id) implies #[trigger] after.has_target(id) by {
            let i = store.target_index(id);
            assert(after.targets[i].id == id);
        }
    } else {
        let at = store.targets.len() as int;
        assert(after.targets[at].id == target.id);
        assert forall|i: int, j: int| 0 <= i < j < after.targets.len() implies (
        #[trigger] after.targets[i]).id != (#[trigger] after.targets[j]).id by {
            if j < at {
                assert(store.targets[i].id != store.targets[j].id);
            } else {
                assert(store.targets[i].id != target.id);
            }
        }
        assert forall|id: Seq<char>| store.has_target(id) implies #[trigger] after.has_target(id) by {
            let i = store.target_index(id);
            assert(after.targets[i].id == id);
        }
    }
    assert forall|i: int| 0 <= i < after.observations.len() implies after.has_target(
        (#[trigger] after.observations[i]).target_id,
    ) by {
        assert(store.has_target(store.observations[i].target_id));
    }
}

/// What stands at each place of a sequence after an insertion.
proof fn lemma_inserted(
    log: Seq<StoredObservationView>,
    k: int,
    entry: StoredObservationView,
    i: int,
)
    requires
        0 <= k <= log.len(),
        0 <= i <= log.len(),
    ensures
        log.insert(k, entry).len() == log.len() + 1,
        i < k ==> log.insert(k, entry)[i] == log[i],
        i == k ==> log.insert(k, entry)[i] == entry,
        i > k ==> log.insert(k, entry)[i] == log[i - 1],
{
}

/// If an entry is too old to keep, so is every entry that is not newer.
pub proof fn lemma_older_stays_older(a: Timestamp, b: Timestamp, now: Timestamp, days: u32)
    requires
        !b.before(a),
        b.older_than(now, days),
    ensures
        a.older_than(now, days),
{
}

/// Every status in a target's history is that of a log entry of the target,
/// and every log entry of the target has its status in the history.
pub proof fn law_history_holds_the_entries(log: Seq<StoredObservationView>, id: Seq<char>)
    ensures
        forall|k: int|
            0 <= k < history_of(log, id).len() ==> exists|i: int|
                0 <= i < log.len() && (#[trigger] log[i]).target_id == id && log[i].status
                    == #[trigger] history_of(log, id)[k],
        forall|i: int|
            0 <= i < log.len() && (#[trigger] log[i]).target_id == id ==> history_of(
                log,
                id,
            ).contains(log[i].status),
    decreases log.len(),
{
    if log.len() > 0 {
        let rest = log.drop_last();
        let older = history_of(rest, id);
        let all = history_of(log, id);
        let shift: int = if log.last().target_id == id {
            1
        } else {
            0
        };
        law_history_holds_the_entries(rest, id);
        assert forall|k: int| 0 <= k < all.len() implies exists|i: int|
            0 <= i < log.len() && (#[trigger] log[i]).target_id == id && log[i].status
                == #[trigger] all[k] by {
            if shift == 1 && k == 0 {
                assert(log[log.len() - 1].target_id == id);
            } else {
                assert(all[k] == older[k - shift]);
                let i = choose|i: int|
                    0 <= i < rest.len() && (#[trigger] rest[i]).target_id == id && rest[i].status
                        == older[k - shift];
                assert(log[i] == rest[i]);
            }
        }
        assert forall|i: int| 0 <= i < log.len() && (#[trigger] log[i]).target_id == id implies all.contains(
            log[i].status,
        ) by {
            if i == log.len() - 1 {
                assert(all[0] == log[i].status);
            } else {
                assert(rest[i] == log[i]);
                assert(older.contains(rest[i].status));
                let k = choose|k: int| 0 <= k < older.len() && older[k] == rest[i].status;
                assert(all[k + shift] == older[k]);
            }
        }
    }
}

/// In a log that is in order of time and has distinct keys, a target's
/// history runs strictly from newer to older.
pub proof fn law_history_newest_first(log: Seq<StoredObservationView>, id: Seq<char>)
    requires
        in_time_order(log),
        keys_distinct(log),
    ensures
        forall|a: int, b: int|
            0 <= a < b < history_of(log, id).len() ==> (#[trigger] history_of(
                log,
                id,
            )[b]).timestamp.before((#[trigger] history_of(log, id)[a]).timestamp),
    decreases log.len(),
{
    if log.len() > 0 {
        let rest = log.drop_last();
        let older = history_of(rest, id);
        let all = history_of(log, id);
        assert forall|i: int, j: int| 0 <= i < j < rest.len() implies !(#[trigger] rest[j]).status.timestamp.before(
            (#[trigger] rest[i]).status.timestamp,
        ) by {
            assert(rest[i] == log[i] && rest[j] == log[j]);
        }
        assert forall|i: int, j: int| 0 <= i < j < rest.len() implies !((#[trigger] rest[i]).target_id
            == (#[trigger] rest[j]).target_id && rest[i].status.timestamp
            == rest[j].status.timestamp) by {
            assert(rest[i] == log[i] && rest[j] == log[j]);
        }
        law_history_newest_first(rest, id);
        law_history_holds_the_entries(rest, id);
        if log.last().target_id == id {
            assert forall|a: int, b: int| 0 <= a < b < all.len() implies (#[trigger] all[b]).timestamp.before(
                (#[trigger] all[a]).timestamp,
            ) by {
                assert(all[b] == older[b - 1]);
                if a == 0 {
                    let i = choose|i: int|
                        0 <= i < rest.len() && (#[trigger] rest[i]).target_id == id
                            && rest[i].status == older[b - 1];
                    assert(rest[i] == log[i]);
                    let last = log[log.len() - 1];
                    assert(!last.status.timestamp.before(log[i].status.timestamp));
                    assert(!(log[i].target_id == last.target_id && log[i].status.timestamp
                        == last.status.timestamp));
                } else {
                    assert(all[a] == older[a - 1]);
                }
            }
        }
    }
}

/// The latest status of a target is that of one of its log entries, and none
/// of its entries is newer; a target has no latest status exactly when the
/// log holds nothing of it.
pub proof fn law_latest_is_newest(store: StoreView, id: Seq<char>)
    requires
        store.valid(),
    ensures
        match store.latest(id) {
            Some(status) => {
                &&& exists|i: int|
                    0 <= i < store.observations.len() && (#[trigger] store.observations[i]).target_id
                        == id && store.observations[i].status == status
                &&& forall|i: int|
                    0 <= i < store.observations.len() && (#[trigger] store.observations[i]).target_id
                        == id ==> !status.timestamp.before(store.observations[i].status.timestamp)
            },
            None => forall|i: int|
                0 <= i < store.observations.len() ==> (#[trigger] store.observations[i]).target_id
                    != id,
        },
{
    let log = store.observations;
    let history = history_of(log, id);
    law_history_holds_the_entries(log, id);
    law_history_newest_first(log, id);
    if history.len() > 0 {
        let status = history[0];
        assert forall|i: int| 0 <= i < log.len() && (#[trigger] log[i]).target_id == id implies !status.timestamp.before(
            log[i].status.timestamp,
        ) by {
            assert(history.contains(log[i].status));
            let k = choose|k: int| 0 <= k < history.len() && history[k] == log[i].status;
            if k > 0 {
                assert(history[k].timestamp.before(history[0].timestamp));
            }
        }
    } else {
        assert forall|i: int| 0 <= i < log.len() implies (#[trigger] log[i]).target_id != id by {
            if log[i].target_id == id {
                assert(history.contains(log[i].status));
            }
        }
    }
}

/// Declaring a target again under an id that is already declared replaces
/// the whole descriptor of that id and nothing else: the other targets, the
/// log and every target's history are as before.
pub proof fn law_upsert_replaces_descriptor(store: StoreView, target: MonitoringTargetDescriptorView)
    requires
        store.valid(),
        store.has_target(target.id),
    ensures
        store.upsert(target).valid(),
        store.upsert(target).targets.len() == store.targets.len(),
        store.upsert(target).has_target(target.id),
        store.upsert(target).targets[store.upsert(target).target_index(target.id)] == target,
        forall|i: int|
            0 <= i < store.targets.len() && (#[trigger] store.targets[i]).id != target.id
                ==> store.upsert(target).targets[i] == store.targets[i],
        store.upsert(target).observations == store.observations,
        forall|id: Seq<char>| #[trigger] store.upsert(target).history(id) == store.history(id),
{
    let after = store.upsert(target);
    let at = store.target_index(target.id);
    lemma_upsert_keeps_valid(store, target);
    assert(after.targets[at].id == target.id);
    let found = after.target_index(target.id);
    if found != at {
        if found < at {
            assert(after.targets[found].id != after.targets[at].id);
        } else {
            assert(after.targets[at].id != after.targets[found].id);
        }
    }
}

/// Declaring a target under a new id adds it and changes nothing else.
pub proof fn law_upsert_adds_new_target(store: StoreView, target: MonitoringTargetDescriptorView)
    requires
        store.valid(),
        !store.has_target(target.id),
    ensures
        store.upsert(target).valid(),
        store.upsert(target).targets == store.targets.push(target),
        store.upsert(target).has_target(target.id),
        store.upsert(target).targets[store.upsert(target).target_index(target.id)] == target,
        store.upsert(target).observations == store.observations,
{
    let after = store.upsert(target);
    let at = store.targets.len() as int;
    lemma_upsert_keeps_valid(store, target);
    assert(after.targets[at].id == target.id);
    let found = after.target_index(target.id);
    if found != at {
        assert(store.targets[found].id == target.id);
    }
}

/// A sweep that drops the `removed` oldest entries, all of them too old and
/// none of the others, keeps exactly the entries that are not too old.
pub proof fn law_sweep_keeps_exactly_the_recent(
    log: Seq<StoredObservationView>,
    removed: int,
    now: Timestamp,
    keep_days: u32,
)
    requires
        0 <= removed <= log.len(),
        forall|i: int|
            0 <= i < removed ==> (#[trigger] log[i]).status.timestamp.older_than(now, keep_days),
        forall|i: int|
            removed <= i < log.len() ==> !(#[trigger] log[i]).status.timestamp.older_than(
                now,
                keep_days,
            ),
    ensures
        forall|entry: StoredObservationView| #[trigger]
            log.skip(removed).contains(entry) <==> log.contains(entry)
                && !entry.status.timestamp.older_than(now, keep_days),
{
    let kept = log.skip(removed);
    assert forall|entry: StoredObservationView| #[trigger]
        kept.contains(entry) <==> log.contains(entry) && !entry.status.timestamp.older_than(
            now,
            keep_days,
        ) by {
        if kept.contains(entry) {
            let k = choose|k: int| 0 <= k < kept.len() && kept[k] == entry;
            assert(log[k + removed] == entry);
        }
        if log.contains(entry) && !entry.status.timestamp.older_than(now, keep_days) {
            let i = choose|i: int| 0 <= i < log.len() && log[i] == entry;
            assert(kept[i - removed] == entry);
        }
    }
}

} // verus!

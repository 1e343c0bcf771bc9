//! The data that flows through the monitor: target descriptors, probe
//! outcomes, observations and bus messages, each with its mathematical view.

use vstd::prelude::*;

verus! {

/// The three health levels a probe outcome can have.
#[derive(Debug, Clone, Copy, PartialEq, Eq, Structural)]
pub enum MonitoringTargetStatus {
    Healthy,
    Unhealthy,
    Degraded,
}

impl Default for MonitoringTargetStatus {
    fn default() -> (status: MonitoringTargetStatus)
        ensures
            status == MonitoringTargetStatus::Healthy,
    {
        MonitoringTargetStatus::Healthy
    }
}

/// A point in time, UTC: whole seconds since the Unix epoch and the
/// nanoseconds within that second.
#[derive(Debug, Clone, Copy, PartialEq, Eq, Structural)]
pub struct Timestamp {
    pub secs: i64,
    pub nanos: u32,
}

impl Timestamp {
    /// Chronological order: earlier second first, then fewer nanoseconds.
    pub open spec fn before(self, other: Timestamp) -> bool {
        self.secs < other.secs || (self.secs == other.secs && self.nanos < other.nanos)
    }

    /// Whether `self` lies strictly before `other`.
    pub fn is_before(&self, other: &Timestamp) -> (earlier: bool)
        ensures
            earlier == self.before(*other),
    {
        self.secs < other.secs || (self.secs == other.secs && self.nanos < other.nanos)
    }

    /// Whether `self` is more than `days` whole days (of 86 400 seconds) older
    /// than `now`, that is `self < now - days`.
    pub open spec fn older_than(self, now: Timestamp, days: u32) -> bool {
        self.secs + 86_400 * days < now.secs || (self.secs + 86_400 * days == now.secs
            && self.nanos < now.nanos)
    }

    /// The instant `days` whole days before `self`, or the earliest instant
    /// there is where that lies before it. Everything before the result, and
    /// nothing else, is more than `days` days older than `self`.
    pub fn days_earlier(&self, days: u32) -> (cutoff: Timestamp)
        ensures
            forall|other: Timestamp| #[trigger]
                other.before(cutoff) <==> other.older_than(*self, days),
            self.secs - 86_400 * days >= i64::MIN ==> cutoff.secs == self.secs - 86_400 * days
                && cutoff.nanos == self.nanos,
    {
        let shifted: i128 = self.secs as i128 - 86_400i128 * (days as i128);
        if shifted >= i64::MIN as i128 {
            Timestamp { secs: shifted as i64, nanos: self.nanos }
        } else {
            Timestamp { secs: i64::MIN, nanos: 0 }
        }
    }

    /// Executable form of [`Timestamp::older_than`].
    pub fn is_older_than(&self, now: &Timestamp, days: u32) -> (expired: bool)
        ensures
            expired == self.older_than(*now, days),
    {
        let shifted: i128 = self.secs as i128 + 86_400i128 * (days as i128);
        let limit: i128 = now.secs as i128;
        shifted < limit || (shifted == limit && self.nanos < now.nanos)
    }
}

/// The outcome of one probe attempt.
#[derive(Debug)]
pub struct CheckedMonitoringTargetStatus {
    pub status: MonitoringTargetStatus,
    pub description: String,
}

/// [`CheckedMonitoringTargetStatus`] as a mathematical value, its texts as sequences of characters.
pub struct CheckedMonitoringTargetStatusView {
    pub status: MonitoringTargetStatus,
    pub description: Seq<char>,
}

impl View for CheckedMonitoringTargetStatus {
    type V = CheckedMonitoringTargetStatusView;

    open spec fn view(&self) -> CheckedMonitoringTargetStatusView {
        CheckedMonitoringTargetStatusView { status: self.status, description: self.description@ }
    }
}

impl Clone for CheckedMonitoringTargetStatus {
    fn clone(&self) -> (copy: CheckedMonitoringTargetStatus)
        ensures
            copy@ == self@,
    {
        CheckedMonitoringTargetStatus {
            status: self.status,
            description: self.description.clone(),
        }
    }
}

/// The finalized result of one cycle: when it completed, what was seen, and
/// how many retries the cycle consumed.
#[derive(Debug)]
pub struct ObservedMonitoringTargetStatus {
    pub timestamp: Timestamp,
    pub status: MonitoringTargetStatus,
    pub description: String,
    pub retries: u8,
}

/// [`ObservedMonitoringTargetStatus`] as a mathematical value, its texts as sequences of characters.
pub struct ObservedMonitoringTargetStatusView {
    pub timestamp: Timestamp,
    pub status: MonitoringTargetStatus,
    pub description: Seq<char>,
    pub retries: u8,
}

impl View for ObservedMonitoringTargetStatus {
    type V = ObservedMonitoringTargetStatusView;

    open spec fn view(&self) -> ObservedMonitoringTargetStatusView {
        ObservedMonitoringTargetStatusView {
            timestamp: self.timestamp,
            status: self.status,
            description: self.description@,
            retries: self.retries,
        }
    }
}

impl Clone for ObservedMonitoringTargetStatus {
    fn clone(&self) -> (copy: ObservedMonitoringTargetStatus)
        ensures
            copy@ == self@,
    {
        ObservedMonitoringTargetStatus {
            timestamp: self.timestamp,
            status: self.status,
            description: self.description.clone(),
            retries: self.retries,
        }
    }
}

/// What a target probes: the closed set of probe kinds.
#[derive(Debug)]
pub enum MonitoringTargetTypeDescriptor {
    HTTP { url: String },
    Systemd { unit: String },
    Ping { target: String },
    FSSpace { path: String },
}

/// [`MonitoringTargetTypeDescriptor`] as a mathematical value, its texts as sequences of characters.
pub enum MonitoringTargetTypeDescriptorView {
    HTTP { url: Seq<char> },
    Systemd { unit: Seq<char> },
    Ping { target: Seq<char> },
    FSSpace { path: Seq<char> },
}

impl View for MonitoringTargetTypeDescriptor {
    type V = MonitoringTargetTypeDescriptorView;

    open spec fn view(&self) -> MonitoringTargetTypeDescriptorView {
        match self {
            MonitoringTargetTypeDescriptor::HTTP { url } => MonitoringTargetTypeDescriptorView::HTTP {
                url: url@,
            },
            MonitoringTargetTypeDescriptor::Systemd {
                unit,
            } => MonitoringTargetTypeDescriptorView::Systemd { unit: unit@ },
            MonitoringTargetTypeDescriptor::Ping {
                target,
            } => MonitoringTargetTypeDescriptorView::Ping { target: target@ },
            MonitoringTargetTypeDescriptor::FSSpace {
                path,
            } => MonitoringTargetTypeDescriptorView::FSSpace { path: path@ },
        }
    }
}

impl Clone for MonitoringTargetTypeDescriptor {
    fn clone(&self) -> (copy: MonitoringTargetTypeDescriptor)
        ensures
            copy@ == self@,
    {
        match self {
            MonitoringTargetTypeDescriptor::HTTP { url } => MonitoringTargetTypeDescriptor::HTTP {
                url: url.clone(),
            },
            MonitoringTargetTypeDescriptor::Systemd {
                unit,
            } => MonitoringTargetTypeDescriptor::Systemd { unit: unit.clone() },
            MonitoringTargetTypeDescriptor::Ping {
                target,
            } => MonitoringTargetTypeDescriptor::Ping { target: target.clone() },
            MonitoringTargetTypeDescriptor::FSSpace {
                path,
            } => MonitoringTargetTypeDescriptor::FSSpace { path: path.clone() },
        }
    }
}

/// A monitored target as declared: identity, display name, cadence, retry
/// budget, per-attempt deadline and probe kind.
#[derive(Debug)]
pub struct MonitoringTargetDescriptor {
    pub id: String,
    pub name: String,
    /// Seconds between cycle starts.
    pub interval: u64,
    /// Retries allowed after the first failed attempt of a cycle.
    pub retries: u8,
    /// Seconds one attempt may take.
    pub timeout: u64,
    pub target: MonitoringTargetTypeDescriptor,
}

/// [`MonitoringTargetDescriptor`] as a mathematical value, its texts as sequences of characters.
pub struct MonitoringTargetDescriptorView {
    pub id: Seq<char>,
    pub name: Seq<char>,
    pub interval: u64,
    pub retries: u8,
    pub timeout: u64,
    pub target: MonitoringTargetTypeDescriptorView,
}

impl View for MonitoringTargetDescriptor {
    type V = MonitoringTargetDescriptorView;

    open spec fn view(&self) -> MonitoringTargetDescriptorView {
        MonitoringTargetDescriptorView {
            id: self.id@,
            name: self.name@,
            interval: self.interval,
            retries: self.retries,
            timeout: self.timeout,
            target: self.target@,
        }
    }
}

impl Clone for MonitoringTargetDescriptor {
    fn clone(&self) -> (copy: MonitoringTargetDescriptor)
        ensures
            copy@ == self@,
    {
        MonitoringTargetDescriptor {
            id: self.id.clone(),
            name: self.name.clone(),
            interval: self.interval,
            retries: self.retries,
            timeout: self.timeout,
            target: self.target.clone(),
        }
    }
}

/// A target together with the statuses observed for it.
#[derive(Debug)]
pub struct MonitoringTarget {
    pub descriptor: MonitoringTargetDescriptor,
    pub status: Vec<ObservedMonitoringTargetStatus>,
}

impl Clone for MonitoringTarget {
    fn clone(&self) -> (copy: MonitoringTarget)
        ensures
            copy.descriptor@ == self.descriptor@,
            copy.status@.len() == self.status@.len(),
            forall|i: int| 0 <= i < self.status@.len() ==> (#[trigger] copy.status@[i])@ == self.status@[i]@,
    {
        let mut status: Vec<ObservedMonitoringTargetStatus> = Vec::new();
        let mut i: usize = 0;
        while i < self.status.len()
            invariant
                0 <= i <= self.status.len(),
                status@.len() == i,
                forall|j: int| 0 <= j < i ==> (#[trigger] status@[j])@ == self.status@[j]@,
            decreases self.status.len() - i,
        {
            status.push(self.status[i].clone());
            i += 1;
        }
        MonitoringTarget { descriptor: self.descriptor.clone(), status }
    }
}

/// The durable record of one cycle: the descriptor as it stood and the
/// finalized status.
#[derive(Debug)]
pub struct Observation {
    pub observed_status: ObservedMonitoringTargetStatus,
    pub monitoring_target: MonitoringTargetDescriptor,
}

/// [`Observation`] as a mathematical value, its texts as sequences of characters.
pub struct ObservationView {
    pub observed_status: ObservedMonitoringTargetStatusView,
    pub monitoring_target: MonitoringTargetDescriptorView,
}

impl View for Observation {
    type V = ObservationView;

    open spec fn view(&self) -> ObservationView {
        ObservationView {
            observed_status: self.observed_status@,
            monitoring_target: self.monitoring_target@,
        }
    }
}

impl Clone for Observation {
    fn clone(&self) -> (copy: Observation)
        ensures
            copy@ == self@,
    {
        Observation {
            observed_status: self.observed_status.clone(),
            monitoring_target: self.monitoring_target.clone(),
        }
    }
}

/// What travels on the bus: an observation, or the marker a subscriber gets
/// first, which tells "just connected" from "nothing has happened".
#[derive(Debug)]
pub enum Message {
    Observation(Observation),
    AppUpdate,
}

/// [`Message`] as a mathematical value, its texts as sequences of characters.
pub enum MessageView {
    Observation(ObservationView),
    AppUpdate,
}

impl View for Message {
    type V = MessageView;

    open spec fn view(&self) -> MessageView {
        match self {
            Message::Observation(observation) => MessageView::Observation(observation@),
            Message::AppUpdate => MessageView::AppUpdate,
        }
    }
}

impl Clone for Message {
    fn clone(&self) -> (copy: Message)
        ensures
            copy@ == self@,
    {
        match self {
            Message::Observation(observation) => Message::Observation(observation.clone()),
            Message::AppUpdate => Message::AppUpdate,
        }
    }
}

/// Reads the clock through `chrono::Utc::now` and splits the instant into
/// whole seconds since the epoch (`DateTime::timestamp`) and the nanoseconds
/// within the second (`DateTime::timestamp_subsec_nanos`). Nothing is claimed
/// of the value: it is whatever the system clock says. `Utc::now` panics when
/// the system clock stands before 1970.
#[verifier::external_body]
pub(crate) fn current_time() -> (now: Timestamp) {
    let now = chrono::Utc::now();
    Timestamp { secs: now.timestamp(), nanos: now.timestamp_subsec_nanos() }
}

} // verus!

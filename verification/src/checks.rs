//! From what a probe saw to the outcome of the attempt. Each probe kind
//! collapses every way of failing into `Unhealthy` with a text that says why.

use crate::model::CheckedMonitoringTargetStatus;
use crate::model::CheckedMonitoringTargetStatusView;
use crate::model::MonitoringTargetStatus;
use vstd::prelude::*;
use vstd::string::StringExecFns;

verus! {

/// The character of one decimal digit.
pub open spec fn digit_char(digit: nat) -> char {
    if digit == 0 {
        '0'
    } else if digit == 1 {
        '1'
    } else if digit == 2 {
        '2'
    } else if digit == 3 {
        '3'
    } else if digit == 4 {
        '4'
    } else if digit == 5 {
        '5'
    } else if digit == 6 {
        '6'
    } else if digit == 7 {
        '7'
    } else if digit == 8 {
        '8'
    } else {
        '9'
    }
}

/// A number written in base ten, without sign or leading zeros.
pub open spec fn decimal(n: nat) -> Seq<char>
    decreases n,
{
    if n < 10 {
        seq![digit_char(n)]
    } else {
        decimal(n / 10).push(digit_char(n % 10))
    }
}

fn digit_text(digit: u64) -> (text: &'static str)
    requires
        digit < 10,
    ensures
        text@ == seq![digit_char(digit as nat)],
{
    proof {
        reveal_strlit("0");
        reveal_strlit("1");
        reveal_strlit("2");
        reveal_strlit("3");
        reveal_strlit("4");
        reveal_strlit("5");
        reveal_strlit("6");
        reveal_strlit("7");
        reveal_strlit("8");
        reveal_strlit("9");
    }
    let text = if digit == 0 {
        "0"
    } else if digit == 1 {
        "1"
    } else if digit == 2 {
        "2"
    } else if digit == 3 {
        "3"
    } else if digit == 4 {
        "4"
    } else if digit == 5 {
        "5"
    } else if digit == 6 {
        "6"
    } else if digit == 7 {
        "7"
    } else if digit == 8 {
        "8"
    } else {
        "9"
    };
    assert(text@ =~= seq![digit_char(digit as nat)]);
    text
}

/// Writes `n` in base ten.
pub fn decimal_string(n: u64) -> (text: String)
    ensures
        text@ == decimal(n as nat),
    decreases n,
{
    if n < 10 {
        String::from_str(digit_text(n))
    } else {
        let head = decimal_string(n / 10);
        let text = head.concat(digit_text(n % 10));
        assert(text@ =~= decimal(n as nat));
        text
    }
}

/// An outcome with the given status and text.
pub open spec fn outcome(
    status: MonitoringTargetStatus,
    description: Seq<char>,
) -> CheckedMonitoringTargetStatusView {
    CheckedMonitoringTargetStatusView { status, description }
}

/// What asking the service manager about a unit came to.
#[derive(Debug)]
pub enum UnitReport {
    /// The unit is active.
    Active,
    /// The unit is not active; the text is what its status query printed.
    Inactive(String),
    /// The service manager could not be asked; the text says why.
    Unavailable(String),
}

/// The outcome of a service-unit probe: `Healthy` with no text for an active
/// unit, else `Unhealthy` with the status output, or with the reason why the
/// service manager could not be asked.
pub open spec fn unit_outcome(report: UnitReport) -> CheckedMonitoringTargetStatusView {
    match report {
        UnitReport::Active => outcome(MonitoringTargetStatus::Healthy, Seq::empty()),
        UnitReport::Inactive(output) => outcome(MonitoringTargetStatus::Unhealthy, output@),
        UnitReport::Unavailable(reason) => outcome(
            MonitoringTargetStatus::Unhealthy,
            "Failed to execute command: "@ + reason@,
        ),
    }
}

/// Turns what the service manager said of a unit into the outcome of the
/// probe.
pub fn check_systemd_unit(report: UnitReport) -> (checked: CheckedMonitoringTargetStatus)
    ensures
        checked@ == unit_outcome(report),
{
    match report {
        UnitReport::Active => CheckedMonitoringTargetStatus {
            status: MonitoringTargetStatus::Healthy,
            description: String::new(),
        },
        UnitReport::Inactive(output) => CheckedMonitoringTargetStatus {
            status: MonitoringTargetStatus::Unhealthy,
            description: output,
        },
        UnitReport::Unavailable(reason) => CheckedMonitoringTargetStatus {
            status: MonitoringTargetStatus::Unhealthy,
            description: String::from_str("Failed to execute command: ").concat(reason.as_str()),
        },
    }
}

/// The outcome for an HTTP response with this status code: `Healthy` for a
/// code from 200 to 299, else `Unhealthy` with the code in the text.
pub open spec fn status_code_outcome(status_code: u16) -> CheckedMonitoringTargetStatusView {
    if 200 <= status_code < 300 {
        outcome(MonitoringTargetStatus::Healthy, Seq::empty())
    } else {
        outcome(MonitoringTargetStatus::Unhealthy, "Status code: "@ + decimal(status_code as nat))
    }
}

/// The outcome of an HTTP probe: that of the status code where a response
/// came, else `Unhealthy` with the text of the request's error.
pub open spec fn http_outcome(response: Result<u16, String>) -> CheckedMonitoringTargetStatusView {
    match response {
        Ok(status_code) => status_code_outcome(status_code),
        Err(error) => outcome(MonitoringTargetStatus::Unhealthy, error@),
    }
}

/// Turns the status code of an HTTP response into the outcome of the probe.
pub fn check_http_url_result(status_code: u16) -> (checked: CheckedMonitoringTargetStatus)
    ensures
        checked@ == status_code_outcome(status_code),
{
    if 200 <= status_code && status_code < 300 {
        CheckedMonitoringTargetStatus {
            status: MonitoringTargetStatus::Healthy,
            description: String::new(),
        }
    } else {
        let code = decimal_string(status_code as u64);
        CheckedMonitoringTargetStatus {
            status: MonitoringTargetStatus::Unhealthy,
            description: String::from_str("Status code: ").concat(code.as_str()),
        }
    }
}

/// Turns what an HTTP request came to, a status code or the text of its
/// error, into the outcome of the probe.
pub fn check_http_url(response: Result<u16, String>) -> (checked: CheckedMonitoringTargetStatus)
    ensures
        checked@ == http_outcome(response),
{
    match response {
        Ok(status_code) => check_http_url_result(status_code),
        Err(error) => CheckedMonitoringTargetStatus {
            status: MonitoringTargetStatus::Unhealthy,
            description: error,
        },
    }
}

/// The health level of a filesystem that is `percentage` percent full: healthy
/// under 60, degraded from 60 to 89, unhealthy from 90 on.
pub open spec fn space_status(percentage: u8) -> MonitoringTargetStatus {
    if percentage < 60 {
        MonitoringTargetStatus::Healthy
    } else if percentage < 90 {
        MonitoringTargetStatus::Degraded
    } else {
        MonitoringTargetStatus::Unhealthy
    }
}

/// The outcome of a filesystem-capacity probe of the mount at `path`. `usage`
/// is the share of the space in use, in percent, or `None` where no such
/// mount was found. A missing mount is `Unhealthy`; else the level follows
/// the usage and the text quotes it.
pub open spec fn space_outcome(path: Seq<char>, usage: Option<u8>) -> CheckedMonitoringTargetStatusView {
    match usage {
        None => outcome(MonitoringTargetStatus::Unhealthy, "Mount point not found: "@ + path),
        Some(percentage) => outcome(
            space_status(percentage),
            "Disk space usage: "@ + decimal(percentage as nat) + "%"@,
        ),
    }
}

/// Turns the usage of the mount at `path` into the outcome of the probe.
pub fn check_fs_space(path: &str, usage: Option<u8>) -> (checked: CheckedMonitoringTargetStatus)
    ensures
        checked@ == space_outcome(path@, usage),
{
    match usage {
        None => CheckedMonitoringTargetStatus {
            status: MonitoringTargetStatus::Unhealthy,
            description: String::from_str("Mount point not found: ").concat(path),
        },
        Some(percentage) => {
            let status = if percentage < 60 {
                MonitoringTargetStatus::Healthy
            } else if percentage < 90 {
                MonitoringTargetStatus::Degraded
            } else {
                MonitoringTargetStatus::Unhealthy
            };
            let number = decimal_string(percentage as u64);
            CheckedMonitoringTargetStatus {
                status,
                description: String::from_str("Disk space usage: ").concat(number.as_str()).concat(
                    "%",
                ),
            }
        },
    }
}

/// Why an echo request got no reply.
#[derive(Debug)]
pub enum PingFailure {
    TimedOut,
    IoPending,
    /// An error of the operating system: its number and its text.
    OsError(u32, String),
    /// A status of the IP layer.
    IpError(u32),
    BadParameter(String),
    DataSizeTooBig(u64),
}

/// The text that describes a failed echo request.
pub open spec fn ping_error_text(failure: PingFailure) -> Seq<char> {
    match failure {
        PingFailure::TimedOut => "Timed out"@,
        PingFailure::IoPending => "IO pending"@,
        PingFailure::OsError(number, text) => "OS error "@ + decimal(number as nat) + ": "@ + text@,
        PingFailure::IpError(status) => "IP error: "@ + decimal(status as nat),
        PingFailure::BadParameter(parameter) => "Bad parameter: "@ + parameter@,
        PingFailure::DataSizeTooBig(size) => "Data size too big: "@ + decimal(size as nat),
    }
}

/// Describes a failed echo request.
pub fn format_ping_error(ping_error: PingFailure) -> (text: String)
    ensures
        text@ == ping_error_text(ping_error),
{
    match ping_error {
        PingFailure::TimedOut => String::from_str("Timed out"),
        PingFailure::IoPending => String::from_str("IO pending"),
        PingFailure::OsError(number, text) => {
            let shown = decimal_string(number as u64);
            String::from_str("OS error ").concat(shown.as_str()).concat(": ").concat(text.as_str())
        },
        PingFailure::IpError(status) => {
            let shown = decimal_string(status as u64);
            String::from_str("IP error: ").concat(shown.as_str())
        },
        PingFailure::BadParameter(parameter) => String::from_str("Bad parameter: ").concat(
            parameter.as_str(),
        ),
        PingFailure::DataSizeTooBig(size) => {
            let shown = decimal_string(size);
            String::from_str("Data size too big: ").concat(shown.as_str())
        },
    }
}

/// What resolving a host and sending it one echo request came to.
#[derive(Debug)]
pub enum PingReport {
    /// The name could not be resolved.
    Unresolved,
    /// The name resolved to no address.
    NoAddress,
    /// The first address answered after this many milliseconds.
    Replied(u32),
    /// The echo request failed.
    Failed(PingFailure),
}

/// The outcome of a reachability probe of `address`, as [`ping_outcome`]
/// says, but for a failed echo request: its failure is handed back as the
/// error, as it came.
pub fn check_ping_result(address: &str, report: PingReport) -> (checked: Result<
    CheckedMonitoringTargetStatus,
    PingFailure,
>)
    ensures
        match report {
            PingReport::Failed(failure) => checked == Err::<CheckedMonitoringTargetStatus, PingFailure>(
                failure,
            ),
            _ => checked matches Ok(found) && found@ == ping_outcome(address@, report),
        },
{
    match report {
        PingReport::Unresolved => Ok(
            CheckedMonitoringTargetStatus {
                status: MonitoringTargetStatus::Unhealthy,
                description: String::from_str("Failed to resolve host: ").concat(address),
            },
        ),
        PingReport::NoAddress => Ok(
            CheckedMonitoringTargetStatus {
                status: MonitoringTargetStatus::Unhealthy,
                description: String::from_str("No IP addresses found for host: ").concat(address),
            },
        ),
        PingReport::Replied(rtt) => Ok(
            CheckedMonitoringTargetStatus {
                status: MonitoringTargetStatus::Healthy,
                description: decimal_string(rtt as u64).concat(" ms"),
            },
        ),
        PingReport::Failed(failure) => Err(failure),
    }
}

/// The outcome of a reachability probe of `address`: a reply is `Healthy`
/// with the round-trip time; a name that does not resolve, or resolves to
/// nothing, and a failed echo request are `Unhealthy` with a text that says
/// which.
pub open spec fn ping_outcome(address: Seq<char>, report: PingReport) -> CheckedMonitoringTargetStatusView {
    match report {
        PingReport::Unresolved => outcome(
            MonitoringTargetStatus::Unhealthy,
            "Failed to resolve host: "@ + address,
        ),
        PingReport::NoAddress => outcome(
            MonitoringTargetStatus::Unhealthy,
            "No IP addresses found for host: "@ + address,
        ),
        PingReport::Replied(rtt) => outcome(
            MonitoringTargetStatus::Healthy,
            decimal(rtt as nat) + " ms"@,
        ),
        PingReport::Failed(failure) => outcome(
            MonitoringTargetStatus::Unhealthy,
            ping_error_text(failure),
        ),
    }
}

/// Turns what resolving and pinging `address` came to into the outcome of the
/// probe.
pub fn check_ping(address: &str, report: PingReport) -> (checked: CheckedMonitoringTargetStatus)
    ensures
        checked@ == ping_outcome(address@, report),
{
    match check_ping_result(address, report) {
        Ok(status) => status,
        Err(error) => CheckedMonitoringTargetStatus {
            status: MonitoringTargetStatus::Unhealthy,
            description: format_ping_error(error),
        },
    }
}

/// Only the filesystem probe ever reports `Degraded`, and it does so exactly
/// for a usage from 60 to 89 percent; under 60 it is `Healthy`, and from 90
/// on, or without the mount, `Unhealthy`.
pub proof fn law_only_filesystem_degrades(
    unit: UnitReport,
    response: Result<u16, String>,
    address: Seq<char>,
    ping: PingReport,
    path: Seq<char>,
    usage: Option<u8>,
)
    ensures
        unit_outcome(unit).status != MonitoringTargetStatus::Degraded,
        http_outcome(response).status != MonitoringTargetStatus::Degraded,
        ping_outcome(address, ping).status != MonitoringTargetStatus::Degraded,
        space_outcome(path, usage).status == MonitoringTargetStatus::Degraded <==> (usage matches Some(
            percentage,
        ) && 60 <= percentage < 90),
        space_outcome(path, usage).status == MonitoringTargetStatus::Healthy <==> (usage matches Some(
            percentage,
        ) && percentage < 60),
{
}

} // verus!

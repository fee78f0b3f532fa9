//! The daemon's reported state and the combined tray snapshot.
use vstd::prelude::*;

verus! {

/// The daemon's account-selection policy.
#[derive(Clone, Copy, Debug, PartialEq, Eq, Structural)]
pub enum RoutingStrategy {
    RoundRobin,
    FillFirst,
}

impl RoutingStrategy {
    /// The name the daemon's command line and JSON use for the policy.
    pub open spec fn cli_value(self) -> Seq<char> {
        match self {
            RoutingStrategy::RoundRobin => "round-robin"@,
            RoutingStrategy::FillFirst => "fill-first"@,
        }
    }

    pub fn as_cli_value(&self) -> (r: &'static str)
        ensures
            r@ == self.cli_value(),
    {
        match self {
            RoutingStrategy::RoundRobin => "round-robin",
            RoutingStrategy::FillFirst => "fill-first",
        }
    }
}

/// One quota window; `used_percent` is the bit pattern of a binary64 value,
/// which may be negative, above 100 or not finite.
#[derive(Clone, Copy, Debug, PartialEq, Eq, Structural)]
pub struct QuotaWindow {
    pub used_percent: u64,
}

#[derive(Clone, Copy, Debug, PartialEq, Eq, Structural)]
pub struct QuotaSnapshot {
    pub session: QuotaWindow,
    pub weekly: QuotaWindow,
    /// Absent or `true`: the session window is meaningful.
    pub session_supported: Option<bool>,
    pub limit_reached: bool,
}

#[derive(Clone, Debug)]
pub struct AccountSnapshot {
    pub id: String,
    pub quota: QuotaSnapshot,
}

pub ghost struct AccountView {
    pub id: Seq<char>,
    pub quota: QuotaSnapshot,
}

impl View for AccountSnapshot {
    type V = AccountView;

    open spec fn view(&self) -> AccountView {
        AccountView { id: self.id@, quota: self.quota }
    }
}

#[derive(Clone, Debug)]
pub struct StatusSnapshot {
    pub active_account_id: Option<String>,
    pub strategy: RoutingStrategy,
    pub accounts: Vec<AccountSnapshot>,
}

pub ghost struct StatusView {
    pub active_account_id: Option<Seq<char>>,
    pub strategy: RoutingStrategy,
    pub accounts: Seq<AccountView>,
}

pub open spec fn opt_text(o: Option<String>) -> Option<Seq<char>> {
    match o {
        Some(s) => Some(s@),
        None => None,
    }
}

impl View for StatusSnapshot {
    type V = StatusView;

    open spec fn view(&self) -> StatusView {
        StatusView {
            active_account_id: opt_text(self.active_account_id),
            strategy: self.strategy,
            accounts: self.accounts@.map_values(|a: AccountSnapshot| a@),
        }
    }
}

#[derive(Clone, Copy, Debug, PartialEq, Eq, Structural)]
pub struct DaemonInfo {
    pub pid: i64,
}

/// What the two daemon queries gave at one moment: for each query either its
/// value or its error.
#[derive(Clone, Debug)]
pub struct TraySnapshot {
    pub status: Option<StatusSnapshot>,
    pub daemon: Option<DaemonInfo>,
    pub status_error: Option<String>,
    pub daemon_error: Option<String>,
}

pub ghost struct TrayView {
    pub status: Option<StatusView>,
    pub daemon: Option<DaemonInfo>,
    pub status_error: Option<Seq<char>>,
    pub daemon_error: Option<Seq<char>>,
}

impl View for TraySnapshot {
    type V = TrayView;

    open spec fn view(&self) -> TrayView {
        TrayView {
            status: match self.status {
                Some(s) => Some(s@),
                None => None,
            },
            daemon: self.daemon,
            status_error: opt_text(self.status_error),
            daemon_error: opt_text(self.daemon_error),
        }
    }
}

impl TrayView {
    /// Exactly one of value and error is present for each query.
    pub open spec fn wf(self) -> bool {
        &&& (self.status is Some) != (self.status_error is Some)
        &&& (self.daemon is Some) != (self.daemon_error is Some)
    }
}

/// The daemon is running when it reported a positive process id.
pub open spec fn daemon_is_running(s: TrayView) -> bool {
    match s.daemon {
        Some(d) => d.pid > 0,
        None => false,
    }
}

pub fn daemon_running(snapshot: &TraySnapshot) -> (r: bool)
    ensures
        r == daemon_is_running(snapshot@),
{
    match &snapshot.daemon {
        Some(d) => d.pid > 0,
        None => false,
    }
}

/// Combines the outcomes of the status and daemon-info queries; a failure of
/// one never hides the other.
pub fn assemble_snapshot(
    status: Result<StatusSnapshot, String>,
    daemon: Result<DaemonInfo, String>,
) -> (r: TraySnapshot)
    ensures
        r@.wf(),
        status is Ok ==> r.status == Some(status->Ok_0) && r.status_error is None,
        status is Err ==> r.status is None && r.status_error == Some(status->Err_0),
        daemon is Ok ==> r.daemon == Some(daemon->Ok_0) && r.daemon_error is None,
        daemon is Err ==> r.daemon is None && r.daemon_error == Some(daemon->Err_0),
{
    let (status, status_error) = match status {
        Ok(s) => (Some(s), None),
        Err(e) => (None, Some(e)),
    };
    let (daemon, daemon_error) = match daemon {
        Ok(d) => (Some(d), None),
        Err(e) => (None, Some(e)),
    };
    TraySnapshot { status, daemon, status_error, daemon_error }
}

} // verus!

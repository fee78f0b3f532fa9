//! Decoding a clicked menu entry into an action, the daemon command that the
//! action issues, and what follows it.
use vstd::prelude::*;
use crate::menu::{
    MENU_ACCOUNT_PREFIX, MENU_DAEMON_RESTART, MENU_DAEMON_START, MENU_DAEMON_STOP,
    MENU_OPEN_DASHBOARD, MENU_QUIT, MENU_REFRESH, MENU_STRATEGY_FILL_FIRST,
    MENU_STRATEGY_ROUND_ROBIN, MENU_TOGGLE_AUTOSTART,
};
use crate::text::{same_text, starts_with_text};

verus! {

/// What a click on a menu entry asks for.
#[derive(Clone, Debug)]
pub enum TrayAction {
    OpenDashboard,
    Refresh,
    DaemonStart,
    DaemonStop,
    DaemonRestart,
    StrategyFillFirst,
    StrategyRoundRobin,
    ToggleAutostart,
    Quit,
    UseAccount { id: String },
    /// An id that no entry of this version carries; it does nothing.
    Unrecognized,
}

pub ghost enum ActionView {
    OpenDashboard,
    Refresh,
    DaemonStart,
    DaemonStop,
    DaemonRestart,
    StrategyFillFirst,
    StrategyRoundRobin,
    ToggleAutostart,
    Quit,
    UseAccount { id: Seq<char> },
    Unrecognized,
}

impl View for TrayAction {
    type V = ActionView;

    open spec fn view(&self) -> ActionView {
        match self {
            TrayAction::OpenDashboard => ActionView::OpenDashboard,
            TrayAction::Refresh => ActionView::Refresh,
            TrayAction::DaemonStart => ActionView::DaemonStart,
            TrayAction::DaemonStop => ActionView::DaemonStop,
            TrayAction::DaemonRestart => ActionView::DaemonRestart,
            TrayAction::StrategyFillFirst => ActionView::StrategyFillFirst,
            TrayAction::StrategyRoundRobin => ActionView::StrategyRoundRobin,
            TrayAction::ToggleAutostart => ActionView::ToggleAutostart,
            TrayAction::Quit => ActionView::Quit,
            TrayAction::UseAccount { id } => ActionView::UseAccount { id: id@ },
            TrayAction::Unrecognized => ActionView::Unrecognized,
        }
    }
}

pub open spec fn has_account_prefix(id: Seq<char>) -> bool {
    MENU_ACCOUNT_PREFIX@.len() <= id.len() && id.subrange(0, MENU_ACCOUNT_PREFIX@.len() as int)
        == MENU_ACCOUNT_PREFIX@
}

/// The action of an entry id: the fixed ids first, then the account namespace,
/// anything else unrecognized.
pub open spec fn action_of(id: Seq<char>) -> ActionView {
    if id == MENU_OPEN_DASHBOARD@ {
        ActionView::OpenDashboard
    } else if id == MENU_REFRESH@ {
        ActionView::Refresh
    } else if id == MENU_DAEMON_START@ {
        ActionView::DaemonStart
    } else if id == MENU_DAEMON_STOP@ {
        ActionView::DaemonStop
    } else if id == MENU_DAEMON_RESTART@ {
        ActionView::DaemonRestart
    } else if id == MENU_STRATEGY_FILL_FIRST@ {
        ActionView::StrategyFillFirst
    } else if id == MENU_STRATEGY_ROUND_ROBIN@ {
        ActionView::StrategyRoundRobin
    } else if id == MENU_TOGGLE_AUTOSTART@ {
        ActionView::ToggleAutostart
    } else if id == MENU_QUIT@ {
        ActionView::Quit
    } else if has_account_prefix(id) {
        ActionView::UseAccount { id: id.subrange(MENU_ACCOUNT_PREFIX@.len() as int, id.len() as int) }
    } else {
        ActionView::Unrecognized
    }
}

pub fn parse_tray_event(event_id: &str) -> (r: TrayAction)
    ensures
        r@ == action_of(event_id@),
{
    if same_text(event_id, MENU_OPEN_DASHBOARD) {
        TrayAction::OpenDashboard
    } else if same_text(event_id, MENU_REFRESH) {
        TrayAction::Refresh
    } else if same_text(event_id, MENU_DAEMON_START) {
        TrayAction::DaemonStart
    } else if same_text(event_id, MENU_DAEMON_STOP) {
        TrayAction::DaemonStop
    } else if same_text(event_id, MENU_DAEMON_RESTART) {
        TrayAction::DaemonRestart
    } else if same_text(event_id, MENU_STRATEGY_FILL_FIRST) {
        TrayAction::StrategyFillFirst
    } else if same_text(event_id, MENU_STRATEGY_ROUND_ROBIN) {
        TrayAction::StrategyRoundRobin
    } else if same_text(event_id, MENU_TOGGLE_AUTOSTART) {
        TrayAction::ToggleAutostart
    } else if same_text(event_id, MENU_QUIT) {
        TrayAction::Quit
    } else if starts_with_text(event_id, MENU_ACCOUNT_PREFIX) {
        let start = MENU_ACCOUNT_PREFIX.unicode_len();
        let id = String::from_str(event_id.substring_char(start, event_id.unicode_len()));
        TrayAction::UseAccount { id }
    } else {
        TrayAction::Unrecognized
    }
}

/// Whether the dashboard is told to re-fetch after the action: every action
/// but opening the dashboard, refreshing the menu, quitting, and ids that no
/// entry carries.
pub open spec fn notifies_dashboard(a: ActionView) -> bool {
    match a {
        ActionView::OpenDashboard => false,
        ActionView::Refresh => false,
        ActionView::Quit => false,
        ActionView::Unrecognized => false,
        _ => true,
    }
}

pub fn requires_dashboard_refresh(action: &TrayAction) -> (r: bool)
    ensures
        r == notifies_dashboard(action@),
{
    match action {
        TrayAction::OpenDashboard => false,
        TrayAction::Refresh => false,
        TrayAction::Quit => false,
        TrayAction::Unrecognized => false,
        _ => true,
    }
}

pub fn tray_event_requires_dashboard_refresh(event_id: &str) -> (r: bool)
    ensures
        r == notifies_dashboard(action_of(event_id@)),
{
    requires_dashboard_refresh(&parse_tray_event(event_id))
}

pub open spec fn texts(v: Seq<String>) -> Seq<Seq<char>> {
    v.map_values(|s: String| s@)
}

/// The arguments of the one daemon command an action issues, if it issues one.
pub open spec fn command_of(a: ActionView) -> Option<Seq<Seq<char>>> {
    match a {
        ActionView::DaemonStart => Some(seq!["daemon"@, "start"@]),
        ActionView::DaemonStop => Some(seq!["daemon"@, "stop"@]),
        ActionView::DaemonRestart => Some(seq!["daemon"@, "restart"@]),
        ActionView::StrategyFillFirst => Some(seq!["strategy"@, "set"@, "--value"@, "fill-first"@]),
        ActionView::StrategyRoundRobin => Some(
            seq!["strategy"@, "set"@, "--value"@, "round-robin"@],
        ),
        ActionView::UseAccount { id } => Some(seq!["account"@, "use"@, "--id"@, id]),
        _ => None,
    }
}

pub fn strings(parts: &[&str]) -> (r: Vec<String>)
    ensures
        r@.len() == parts@.len(),
        forall|i: int| 0 <= i < parts@.len() ==> #[trigger] r@[i]@ == parts@[i]@,
{
    let mut out: Vec<String> = Vec::new();
    let mut i: usize = 0;
    while i < parts.len()
        invariant
            i <= parts@.len(),
            out@.len() == i,
            forall|k: int| 0 <= k < i ==> #[trigger] out@[k]@ == parts@[k]@,
        decreases parts@.len() - i,
    {
        out.push(String::from_str(parts[i]));
        i = i + 1;
    }
    out
}

pub fn action_command(action: &TrayAction) -> (r: Option<Vec<String>>)
    ensures
        match r {
            Some(v) => command_of(action@) == Some(texts(v@)),
            None => command_of(action@) is None,
        },
{
    let r = match action {
        TrayAction::DaemonStart => Some(strings(&["daemon", "start"])),
        TrayAction::DaemonStop => Some(strings(&["daemon", "stop"])),
        TrayAction::DaemonRestart => Some(strings(&["daemon", "restart"])),
        TrayAction::StrategyFillFirst => Some(strings(&["strategy", "set", "--value", "fill-first"])),
        TrayAction::StrategyRoundRobin => Some(
            strings(&["strategy", "set", "--value", "round-robin"]),
        ),
        TrayAction::UseAccount { id } => Some(strings(&["account", "use", "--id", id.as_str()])),
        _ => None,
    };
    proof {
        if r is Some {
            assert(texts(r->Some_0@) =~= command_of(action@)->Some_0);
        }
    }
    r
}

/// The one thing an action does before its follow-up.
#[derive(Clone, Debug)]
pub enum Step {
    /// Run the daemon command with these arguments.
    Run { args: Vec<String> },
    ShowDashboard,
    ToggleAutostart,
    Quit,
    /// Nothing to do; the action succeeds at once.
    Nothing,
}

pub ghost enum StepView {
    Run { args: Seq<Seq<char>> },
    ShowDashboard,
    ToggleAutostart,
    Quit,
    Nothing,
}

impl View for Step {
    type V = StepView;

    open spec fn view(&self) -> StepView {
        match self {
            Step::Run { args } => StepView::Run { args: texts(args@) },
            Step::ShowDashboard => StepView::ShowDashboard,
            Step::ToggleAutostart => StepView::ToggleAutostart,
            Step::Quit => StepView::Quit,
            Step::Nothing => StepView::Nothing,
        }
    }
}

/// A daemon command where the action has one; else the local work, and
/// nothing at all for a refresh or an id that no entry carries.
pub open spec fn step_of(a: ActionView) -> StepView {
    match command_of(a) {
        Some(args) => StepView::Run { args },
        None => match a {
            ActionView::OpenDashboard => StepView::ShowDashboard,
            ActionView::ToggleAutostart => StepView::ToggleAutostart,
            ActionView::Quit => StepView::Quit,
            _ => StepView::Nothing,
        },
    }
}

pub fn plan_action(action: &TrayAction) -> (r: Step)
    ensures
        r@ == step_of(action@),
{
    match action_command(action) {
        Some(args) => Step::Run { args },
        None => match action {
            TrayAction::OpenDashboard => Step::ShowDashboard,
            TrayAction::ToggleAutostart => Step::ToggleAutostart,
            TrayAction::Quit => Step::Quit,
            _ => Step::Nothing,
        },
    }
}

/// What the tray does once an action is done.
#[derive(Clone, Copy, Debug, PartialEq, Eq, Structural)]
pub struct FollowUp {
    /// Tell the dashboard to re-fetch its view.
    pub notify_dashboard: bool,
    /// Rebuild and install the tray menu.
    pub refresh_menu: bool,
    /// End the process at once.
    pub exit: bool,
}

/// Quitting ends the process with nothing after it; every other action is
/// followed by a menu refresh, and by a dashboard notification where it
/// notifies.
pub fn follow_up(action: &TrayAction) -> (r: FollowUp)
    ensures
        r.exit == (action@ is Quit),
        r.refresh_menu == !(action@ is Quit),
        r.notify_dashboard == notifies_dashboard(action@),
{
    let exit = match action {
        TrayAction::Quit => true,
        _ => false,
    };
    FollowUp { notify_dashboard: requires_dashboard_refresh(action), refresh_menu: !exit, exit }
}

} // verus!

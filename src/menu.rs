//! Rendering a tray snapshot into the ordered entries of the tray menu.
use vstd::prelude::*;
use crate::label::{
    account_label, account_menu_label, shortened, shorten_error, strategy_label,
    strategy_menu_label,
};
use crate::model::{
    daemon_is_running, daemon_running, RoutingStrategy, StatusSnapshot, StatusView, TraySnapshot,
    TrayView,
};

verus! {

pub const MENU_OPEN_DASHBOARD: &'static str = "open_dashboard";
pub const MENU_REFRESH: &'static str = "refresh";
pub const MENU_DAEMON_START: &'static str = "daemon_start";
pub const MENU_DAEMON_STOP: &'static str = "daemon_stop";
pub const MENU_DAEMON_RESTART: &'static str = "daemon_restart";
pub const MENU_STRATEGY_FILL_FIRST: &'static str = "strategy_fill_first";
pub const MENU_STRATEGY_ROUND_ROBIN: &'static str = "strategy_round_robin";
pub const MENU_TOGGLE_AUTOSTART: &'static str = "toggle_autostart";
pub const MENU_QUIT: &'static str = "quit";
/// Namespace of the per-account entries, ahead of the account id.
pub const MENU_ACCOUNT_PREFIX: &'static str = "account:";

/// One row of the tray menu.
#[derive(Clone, Debug)]
pub enum MenuEntry {
    /// An enabled item that dispatches its id when clicked.
    Action { id: String, label: String },
    /// A checkable item that dispatches its id when clicked.
    Check { id: String, label: String, checked: bool },
    /// A disabled line of text.
    Info { label: String },
    Separator,
}

pub ghost enum EntryView {
    Action { id: Seq<char>, label: Seq<char> },
    Check { id: Seq<char>, label: Seq<char>, checked: bool },
    Info { label: Seq<char> },
    Separator,
}

impl View for MenuEntry {
    type V = EntryView;

    open spec fn view(&self) -> EntryView {
        match self {
            MenuEntry::Action { id, label } => EntryView::Action { id: id@, label: label@ },
            MenuEntry::Check { id, label, checked } => EntryView::Check {
                id: id@,
                label: label@,
                checked: *checked,
            },
            MenuEntry::Info { label } => EntryView::Info { label: label@ },
            MenuEntry::Separator => EntryView::Separator,
        }
    }
}

pub open spec fn entries_view(v: Seq<MenuEntry>) -> Seq<EntryView> {
    v.map_values(|e: MenuEntry| e@)
}

pub open spec fn action(id: &str, label: &str) -> EntryView {
    EntryView::Action { id: id@, label: label@ }
}

pub open spec fn info(label: Seq<char>) -> EntryView {
    EntryView::Info { label }
}

pub open spec fn strategy_of(s: TrayView) -> Option<RoutingStrategy> {
    match s.status {
        Some(st) => Some(st.strategy),
        None => None,
    }
}

/// Navigation, daemon control, strategy selection and the accounts header.
pub open spec fn head_entries(s: TrayView) -> Seq<EntryView> {
    seq![
        action(MENU_OPEN_DASHBOARD, "Open Dashboard"),
        action(MENU_REFRESH, "Refresh Now"),
        EntryView::Separator,
        info(if daemon_is_running(s) { "Daemon: running"@ } else { "Daemon: stopped"@ }),
        action(MENU_DAEMON_START, "Start Daemon"),
        action(MENU_DAEMON_STOP, "Stop Daemon"),
        action(MENU_DAEMON_RESTART, "Restart Daemon"),
        EntryView::Separator,
        info(strategy_label(strategy_of(s))),
        EntryView::Check {
            id: MENU_STRATEGY_FILL_FIRST@,
            label: "Fill First"@,
            checked: strategy_of(s) == Some(RoutingStrategy::FillFirst),
        },
        EntryView::Check {
            id: MENU_STRATEGY_ROUND_ROBIN@,
            label: "Round Robin"@,
            checked: strategy_of(s) == Some(RoutingStrategy::RoundRobin),
        },
        EntryView::Separator,
        info("Accounts (session + weekly remaining)"@),
    ]
}

/// The checkable row of the account at `i`, checked when it is the active one.
pub open spec fn account_entry(st: StatusView, i: int) -> EntryView {
    EntryView::Check {
        id: MENU_ACCOUNT_PREFIX@ + st.accounts[i].id,
        label: account_label(st.accounts[i]),
        checked: st.active_account_id == Some(st.accounts[i].id),
    }
}

pub open spec fn account_entries(status: Option<StatusView>) -> Seq<EntryView> {
    match status {
        None => seq![info("  Status unavailable"@)],
        Some(st) => if st.accounts.len() == 0 {
            seq![info("  No accounts"@)]
        } else {
            Seq::new(st.accounts.len(), |i: int| account_entry(st, i))
        },
    }
}

pub open spec fn error_entries(s: TrayView) -> Seq<EntryView> {
    let a = match s.status_error {
        Some(e) => seq![info("  status error: "@ + shortened(e))],
        None => Seq::empty(),
    };
    let b = match s.daemon_error {
        Some(e) => seq![info("  daemon error: "@ + shortened(e))],
        None => Seq::empty(),
    };
    a + b
}

pub open spec fn tail_entries(autostart_enabled: bool) -> Seq<EntryView> {
    seq![
        EntryView::Separator,
        EntryView::Check {
            id: MENU_TOGGLE_AUTOSTART@,
            label: "Launch at Login"@,
            checked: autostart_enabled,
        },
        action(MENU_QUIT, "Quit"),
    ]
}

/// The whole menu for a snapshot and the autostart flag.
pub open spec fn menu_model(s: TrayView, autostart_enabled: bool) -> Seq<EntryView> {
    head_entries(s) + account_entries(s.status) + error_entries(s) + tail_entries(
        autostart_enabled,
    )
}

fn push_entry(v: &mut Vec<MenuEntry>, e: MenuEntry)
    ensures
        entries_view(final(v)@) == entries_view(old(v)@).push(e@),
{
    let ghost e_view = e@;
    v.push(e);
    assert(entries_view(v@) =~= entries_view(old(v)@).push(e_view));
}

fn push_action(v: &mut Vec<MenuEntry>, id: &str, label: &str)
    ensures
        entries_view(final(v)@) == entries_view(old(v)@).push(action(id, label)),
{
    push_entry(v, MenuEntry::Action { id: String::from_str(id), label: String::from_str(label) });
}

fn push_info(v: &mut Vec<MenuEntry>, label: String)
    ensures
        entries_view(final(v)@) == entries_view(old(v)@).push(info(label@)),
{
    push_entry(v, MenuEntry::Info { label });
}

fn push_check(v: &mut Vec<MenuEntry>, id: String, label: &str, checked: bool)
    ensures
        entries_view(final(v)@) == entries_view(old(v)@).push(
            EntryView::Check { id: id@, label: label@, checked },
        ),
{
    push_entry(v, MenuEntry::Check { id, label: String::from_str(label), checked });
}

fn push_accounts(v: &mut Vec<MenuEntry>, status: &Option<StatusSnapshot>)
    ensures
        entries_view(final(v)@) == entries_view(old(v)@) + account_entries(
            match status {
                Some(st) => Some(st@),
                None => None,
            },
        ),
{
    let ghost start = entries_view(v@);
    match status {
        None => {
            push_info(v, String::from_str("  Status unavailable"));
            assert(entries_view(v@) =~= start + seq![info("  Status unavailable"@)]);
        },
        Some(st) => {
            let n = st.accounts.len();
            if n == 0 {
                push_info(v, String::from_str("  No accounts"));
                assert(entries_view(v@) =~= start + seq![info("  No accounts"@)]);
            } else {
                let ghost sv = st@;
                let mut i: usize = 0;
                while i < n
                    invariant
                        n == st.accounts@.len(),
                        sv == st@,
                        i <= n,
                        entries_view(v@) =~= start + Seq::new(
                            i as nat,
                            |k: int| account_entry(sv, k),
                        ),
                    decreases n - i,
                {
                    let account = &st.accounts[i];
                    let id = String::from_str(MENU_ACCOUNT_PREFIX).concat(account.id.as_str());
                    let active = match &st.active_account_id {
                        Some(a) => crate::text::same_text(a.as_str(), account.id.as_str()),
                        None => false,
                    };
                    let label = account_menu_label(account);
                    push_entry(v, MenuEntry::Check { id, label, checked: active });
                    assert(sv.accounts[i as int] == account@);
                    assert(entries_view(v@) =~= start + Seq::new(
                        (i + 1) as nat,
                        |k: int| account_entry(sv, k),
                    ));
                    i = i + 1;
                }
            }
        },
    }
}

fn push_error(v: &mut Vec<MenuEntry>, prefix: &str, error: &Option<String>)
    ensures
        entries_view(final(v)@) == entries_view(old(v)@) + match error {
            Some(e) => seq![info(prefix@ + shortened(e@))],
            None => Seq::<EntryView>::empty(),
        },
{
    let ghost start = entries_view(v@);
    match error {
        Some(e) => {
            let line = String::from_str(prefix).concat(shorten_error(e.as_str()).as_str());
            push_info(v, line);
            assert(entries_view(v@) =~= start + seq![info(prefix@ + shortened(e@))]);
        },
        None => {
            assert(entries_view(v@) =~= start);
        },
    }
}

/// Renders the menu for a snapshot; the result depends on the two arguments
/// alone.
pub fn build_menu(snapshot: &TraySnapshot, autostart_enabled: bool) -> (r: Vec<MenuEntry>)
    ensures
        entries_view(r@) == menu_model(snapshot@, autostart_enabled),
{
    let mut v: Vec<MenuEntry> = Vec::new();
    assert(entries_view(v@) =~= Seq::<EntryView>::empty());
    push_action(&mut v, MENU_OPEN_DASHBOARD, "Open Dashboard");
    push_action(&mut v, MENU_REFRESH, "Refresh Now");
    push_entry(&mut v, MenuEntry::Separator);
    let daemon_line = if daemon_running(snapshot) {
        "Daemon: running"
    } else {
        "Daemon: stopped"
    };
    push_info(&mut v, String::from_str(daemon_line));
    push_action(&mut v, MENU_DAEMON_START, "Start Daemon");
    push_action(&mut v, MENU_DAEMON_STOP, "Stop Daemon");
    push_action(&mut v, MENU_DAEMON_RESTART, "Restart Daemon");
    push_entry(&mut v, MenuEntry::Separator);
    let strategy: Option<&RoutingStrategy> = match &snapshot.status {
        Some(st) => Some(&st.strategy),
        None => None,
    };
    push_info(&mut v, strategy_menu_label(strategy));
    let fill = match strategy {
        Some(RoutingStrategy::FillFirst) => true,
        _ => false,
    };
    let round = match strategy {
        Some(RoutingStrategy::RoundRobin) => true,
        _ => false,
    };
    push_check(&mut v, String::from_str(MENU_STRATEGY_FILL_FIRST), "Fill First", fill);
    push_check(&mut v, String::from_str(MENU_STRATEGY_ROUND_ROBIN), "Round Robin", round);
    push_entry(&mut v, MenuEntry::Separator);
    push_info(&mut v, String::from_str("Accounts (session + weekly remaining)"));
    assert(entries_view(v@) =~= head_entries(snapshot@));
    push_accounts(&mut v, &snapshot.status);
    push_error(&mut v, "  status error: ", &snapshot.status_error);
    push_error(&mut v, "  daemon error: ", &snapshot.daemon_error);
    assert(entries_view(v@) =~= head_entries(snapshot@) + account_entries(snapshot@.status)
        + error_entries(snapshot@));
    let ghost mid = entries_view(v@);
    push_entry(&mut v, MenuEntry::Separator);
    push_check(&mut v, String::from_str(MENU_TOGGLE_AUTOSTART), "Launch at Login", autostart_enabled);
    push_action(&mut v, MENU_QUIT, "Quit");
    assert(entries_view(v@) =~= mid + tail_entries(autostart_enabled));
    v
}

} // verus!

use switchly_tray::control::{
    collect_output, daemon_info_args, daemon_restart_args, daemon_start_args, daemon_stop_args,
    decode_failure_message, find_repo_root, is_switchly_root, normalize_output, status_args,
};
use switchly_tray::dispatch::{
    action_command, follow_up, parse_tray_event, plan_action,
    tray_event_requires_dashboard_refresh, Step, TrayAction,
};
use switchly_tray::label::{account_menu_label, shorten_error, strategy_menu_label};
use switchly_tray::lifecycle::{close_action_for, should_close_window, AppLifecycleState, CloseAction};
use switchly_tray::menu::{
    build_menu, MenuEntry, MENU_DAEMON_RESTART, MENU_DAEMON_START, MENU_DAEMON_STOP,
    MENU_OPEN_DASHBOARD, MENU_QUIT, MENU_REFRESH, MENU_STRATEGY_FILL_FIRST,
    MENU_STRATEGY_ROUND_ROBIN, MENU_TOGGLE_AUTOSTART,
};
use switchly_tray::model::{
    assemble_snapshot, daemon_running, AccountSnapshot, DaemonInfo, QuotaSnapshot, QuotaWindow,
    RoutingStrategy, StatusSnapshot, TraySnapshot,
};
use switchly_tray::percent::{fmt_pct, remaining_pct};

fn pct(v: f64) -> u64 {
    v.to_bits()
}

fn account(id: &str, session: f64, weekly: f64, supported: Option<bool>, limit: bool) -> AccountSnapshot {
    AccountSnapshot {
        id: id.to_string(),
        quota: QuotaSnapshot {
            session: QuotaWindow { used_percent: pct(session) },
            weekly: QuotaWindow { used_percent: pct(weekly) },
            session_supported: supported,
            limit_reached: limit,
        },
    }
}

fn labels(menu: &[MenuEntry]) -> Vec<String> {
    menu.iter()
        .map(|e| match e {
            MenuEntry::Action { id, label } => format!("A[{id}] {label}"),
            MenuEntry::Check { id, label, checked } => format!("C[{id}:{checked}] {label}"),
            MenuEntry::Info { label } => format!("I {label}"),
            MenuEntry::Separator => "-".to_string(),
        })
        .collect()
}

#[test]
fn fmt_pct_clamps_and_rounds() {
    assert_eq!(fmt_pct(pct(-12.0)), 0);
    assert_eq!(fmt_pct(pct(0.0)), 0);
    assert_eq!(fmt_pct(pct(12.2)), 12);
    assert_eq!(fmt_pct(pct(12.6)), 13);
    assert_eq!(fmt_pct(pct(120.0)), 100);
}

#[test]
fn remaining_pct_converts_from_used_percent() {
    assert_eq!(remaining_pct(pct(0.0)), 100);
    assert_eq!(remaining_pct(pct(12.2)), 88);
    assert_eq!(remaining_pct(pct(12.6)), 87);
    assert_eq!(remaining_pct(pct(100.0)), 0);
    assert_eq!(remaining_pct(pct(120.0)), 0);
}

#[test]
fn account_menu_label_formats_remaining_and_limit() {
    let account = account("acc-a", 22.1, 80.7, Some(true), true);
    let label = account_menu_label(&account);
    assert_eq!(label, "acc-a | S:78% W:19% !");
}

#[test]
fn account_menu_label_uses_na_for_unsupported_session_window() {
    let account = account("acc-free", 0.0, 1.0, Some(false), false);
    let label = account_menu_label(&account);
    assert_eq!(label, "acc-free | S:N/A W:99%");
}

#[test]
fn shorten_error_limits_length() {
    let short = shorten_error("daemon down");
    assert_eq!(short, "daemon down");

    let long = shorten_error("abcdefghijklmnopqrstuvwxyz0123456789---suffix-extra-long");
    assert_eq!(long, "abcdefghijklmnopqrstuvwxyz0123456789---suffix-ex...");
}

#[test]
fn tray_event_requires_dashboard_refresh_matches_expected_ids() {
    assert!(!tray_event_requires_dashboard_refresh(MENU_REFRESH));
    assert!(tray_event_requires_dashboard_refresh(MENU_DAEMON_START));
    assert!(tray_event_requires_dashboard_refresh(MENU_STRATEGY_ROUND_ROBIN));
    assert!(tray_event_requires_dashboard_refresh(MENU_TOGGLE_AUTOSTART));
    assert!(tray_event_requires_dashboard_refresh("account:acc-a"));

    assert!(!tray_event_requires_dashboard_refresh(MENU_OPEN_DASHBOARD));
    assert!(!tray_event_requires_dashboard_refresh(MENU_QUIT));
    assert!(!tray_event_requires_dashboard_refresh("unknown"));
}

#[test]
fn fmt_pct_edge_values() {
    assert_eq!(fmt_pct(pct(f64::NAN)), 0);
    assert_eq!(fmt_pct(pct(f64::INFINITY)), 0);
    assert_eq!(fmt_pct(pct(f64::NEG_INFINITY)), 0);
    assert_eq!(fmt_pct(pct(-0.0)), 0);
    assert_eq!(fmt_pct(pct(-0.4)), 0);
    assert_eq!(fmt_pct(pct(12.5)), 13);
    assert_eq!(fmt_pct(pct(0.5)), 1);
    assert_eq!(fmt_pct(pct(0.49999)), 0);
    assert_eq!(fmt_pct(pct(99.5)), 100);
    assert_eq!(fmt_pct(pct(100.0)), 100);
    assert_eq!(fmt_pct(pct(1e300)), 100);
    assert_eq!(fmt_pct(pct(5e-324)), 0);
    assert_eq!(fmt_pct(pct(57.0)), 57);
}

#[test]
fn remaining_pct_is_complement_of_fmt_pct() {
    for v in [-3.0, 0.0, 0.4, 33.3, 50.5, 99.9, 100.0, 250.0, f64::NAN] {
        assert_eq!(remaining_pct(pct(v)) as u32, 100 - fmt_pct(pct(v)) as u32);
    }
}

#[test]
fn account_label_with_absent_support_and_no_limit() {
    let plain = account("acc-b", 100.0, -5.0, None, false);
    assert_eq!(account_menu_label(&plain), "acc-b | S:0% W:100%");
    let odd = account("x", 55.0, f64::NAN, Some(false), true);
    assert_eq!(account_menu_label(&odd), "x | S:N/A W:100% !");
}

#[test]
fn strategy_labels() {
    assert_eq!(strategy_menu_label(Some(&RoutingStrategy::FillFirst)), "Current mode: fill-first");
    assert_eq!(strategy_menu_label(Some(&RoutingStrategy::RoundRobin)), "Current mode: round-robin");
    assert_eq!(strategy_menu_label(None), "Current mode: unknown");
    assert_eq!(RoutingStrategy::FillFirst.as_cli_value(), "fill-first");
}

#[test]
fn shorten_error_trims_and_collapses_newlines() {
    assert_eq!(shorten_error("  line one\nline two \n"), "line one line two");
    assert_eq!(shorten_error(""), "");
    let exact = "a".repeat(48);
    assert_eq!(shorten_error(&exact), exact);
    let longer = "é".repeat(60);
    let out = shorten_error(&longer);
    assert_eq!(out.chars().count(), 51);
    assert_eq!(out, format!("{}...", "é".repeat(48)));
}

fn status(strategy: RoutingStrategy, active: Option<&str>, accounts: Vec<AccountSnapshot>) -> StatusSnapshot {
    StatusSnapshot {
        active_account_id: active.map(|s| s.to_string()),
        strategy,
        accounts,
    }
}

#[test]
fn menu_lists_accounts_and_checks_active_one() {
    let snapshot = assemble_snapshot(
        Ok(status(
            RoutingStrategy::FillFirst,
            Some("acc-b"),
            vec![
                account("acc-a", 22.1, 80.7, Some(true), true),
                account("acc-b", 0.0, 1.0, None, false),
            ],
        )),
        Ok(DaemonInfo { pid: 42 }),
    );
    let menu = build_menu(&snapshot, true);
    assert_eq!(
        labels(&menu),
        vec![
            "A[open_dashboard] Open Dashboard",
            "A[refresh] Refresh Now",
            "-",
            "I Daemon: running",
            "A[daemon_start] Start Daemon",
            "A[daemon_stop] Stop Daemon",
            "A[daemon_restart] Restart Daemon",
            "-",
            "I Current mode: fill-first",
            "C[strategy_fill_first:true] Fill First",
            "C[strategy_round_robin:false] Round Robin",
            "-",
            "I Accounts (session + weekly remaining)",
            "C[account:acc-a:false] acc-a | S:78% W:19% !",
            "C[account:acc-b:true] acc-b | S:100% W:99%",
            "-",
            "C[toggle_autostart:true] Launch at Login",
            "A[quit] Quit",
        ]
    );
}

#[test]
fn menu_shows_errors_when_queries_fail() {
    let snapshot = assemble_snapshot(
        Err("  connection refused\nretry later ".to_string()),
        Err("daemon down".to_string()),
    );
    let menu = labels(&build_menu(&snapshot, false));
    assert_eq!(menu[3], "I Daemon: stopped");
    assert_eq!(menu[8], "I Current mode: unknown");
    assert_eq!(menu[9], "C[strategy_fill_first:false] Fill First");
    assert_eq!(menu[10], "C[strategy_round_robin:false] Round Robin");
    assert_eq!(menu[13], "I   Status unavailable");
    assert_eq!(menu[14], "I   status error: connection refused retry later");
    assert_eq!(menu[15], "I   daemon error: daemon down");
    assert_eq!(menu[17], "C[toggle_autostart:false] Launch at Login");
    assert_eq!(menu.len(), 19);
}

#[test]
fn menu_with_no_accounts_and_round_robin() {
    let snapshot = assemble_snapshot(
        Ok(status(RoutingStrategy::RoundRobin, None, vec![])),
        Ok(DaemonInfo { pid: 0 }),
    );
    let menu = labels(&build_menu(&snapshot, false));
    assert_eq!(menu[3], "I Daemon: stopped");
    assert_eq!(menu[9], "C[strategy_fill_first:false] Fill First");
    assert_eq!(menu[10], "C[strategy_round_robin:true] Round Robin");
    assert_eq!(menu[13], "I   No accounts");
    assert_eq!(menu.len(), 17);
}

#[test]
fn menu_building_is_deterministic() {
    let make = || {
        assemble_snapshot(
            Ok(status(RoutingStrategy::FillFirst, Some("a"), vec![account("a", 10.0, 20.0, None, false)])),
            Err("boom".to_string()),
        )
    };
    assert_eq!(labels(&build_menu(&make(), true)), labels(&build_menu(&make(), true)));
}

#[test]
fn partial_snapshot_keeps_the_other_half() {
    let s: TraySnapshot = assemble_snapshot(Err("status failed".to_string()), Ok(DaemonInfo { pid: 7 }));
    assert!(s.status.is_none());
    assert_eq!(s.status_error.as_deref(), Some("status failed"));
    assert_eq!(s.daemon, Some(DaemonInfo { pid: 7 }));
    assert!(s.daemon_error.is_none());
    assert!(daemon_running(&s));

    let t = assemble_snapshot(Ok(status(RoutingStrategy::RoundRobin, None, vec![])), Err("info failed".to_string()));
    assert!(t.status.is_some());
    assert!(t.status_error.is_none());
    assert!(t.daemon.is_none());
    assert_eq!(t.daemon_error.as_deref(), Some("info failed"));
    assert!(!daemon_running(&t));
}

#[test]
fn dispatch_table_maps_each_id() {
    assert!(matches!(parse_tray_event(MENU_OPEN_DASHBOARD), TrayAction::OpenDashboard));
    assert!(matches!(parse_tray_event(MENU_REFRESH), TrayAction::Refresh));
    assert!(matches!(parse_tray_event(MENU_DAEMON_START), TrayAction::DaemonStart));
    assert!(matches!(parse_tray_event(MENU_DAEMON_STOP), TrayAction::DaemonStop));
    assert!(matches!(parse_tray_event(MENU_DAEMON_RESTART), TrayAction::DaemonRestart));
    assert!(matches!(parse_tray_event(MENU_STRATEGY_FILL_FIRST), TrayAction::StrategyFillFirst));
    assert!(matches!(parse_tray_event(MENU_STRATEGY_ROUND_ROBIN), TrayAction::StrategyRoundRobin));
    assert!(matches!(parse_tray_event(MENU_TOGGLE_AUTOSTART), TrayAction::ToggleAutostart));
    assert!(matches!(parse_tray_event(MENU_QUIT), TrayAction::Quit));
    match parse_tray_event("account:acc-a") {
        TrayAction::UseAccount { id } => assert_eq!(id, "acc-a"),
        other => panic!("unexpected {other:?}"),
    }
    assert!(matches!(parse_tray_event("unknown"), TrayAction::Unrecognized));
    assert!(matches!(parse_tray_event("account"), TrayAction::Unrecognized));
}

#[test]
fn action_commands() {
    let cmd = |id: &str| action_command(&parse_tray_event(id));
    assert_eq!(cmd(MENU_DAEMON_START), Some(vec!["daemon".to_string(), "start".to_string()]));
    assert_eq!(cmd(MENU_DAEMON_STOP), Some(vec!["daemon".to_string(), "stop".to_string()]));
    assert_eq!(cmd(MENU_DAEMON_RESTART), Some(vec!["daemon".to_string(), "restart".to_string()]));
    assert_eq!(
        cmd(MENU_STRATEGY_FILL_FIRST).unwrap(),
        vec!["strategy", "set", "--value", "fill-first"]
    );
    assert_eq!(
        cmd(MENU_STRATEGY_ROUND_ROBIN).unwrap(),
        vec!["strategy", "set", "--value", "round-robin"]
    );
    assert_eq!(cmd("account:acc-a").unwrap(), vec!["account", "use", "--id", "acc-a"]);
    assert_eq!(cmd("unknown"), None);
    assert_eq!(cmd(MENU_OPEN_DASHBOARD), None);
    assert_eq!(cmd(MENU_REFRESH), None);
    assert_eq!(cmd(MENU_QUIT), None);
    assert_eq!(cmd(MENU_TOGGLE_AUTOSTART), None);
}

#[test]
fn follow_up_after_actions() {
    let quit = follow_up(&TrayAction::Quit);
    assert!(quit.exit && !quit.refresh_menu && !quit.notify_dashboard);
    let open = follow_up(&TrayAction::OpenDashboard);
    assert!(!open.exit && open.refresh_menu && !open.notify_dashboard);
    let refresh = follow_up(&TrayAction::Refresh);
    assert!(!refresh.exit && refresh.refresh_menu && !refresh.notify_dashboard);
    let start = follow_up(&TrayAction::DaemonStart);
    assert!(!start.exit && start.refresh_menu && start.notify_dashboard);
    let unknown = follow_up(&TrayAction::Unrecognized);
    assert!(!unknown.exit && unknown.refresh_menu && !unknown.notify_dashboard);
}

#[test]
fn output_is_normalized() {
    assert_eq!(collect_output(true, b"  hello\n", b""), Ok("hello".to_string()));
    assert_eq!(collect_output(true, b" \n ", b"warn"), Ok("ok".to_string()));
    assert_eq!(collect_output(false, b"out", b" boom \n"), Err("boom".to_string()));
    assert_eq!(collect_output(false, b"out", b""), Err("command failed".to_string()));
    assert_eq!(collect_output(true, &[0x66, 0xff, 0x67], b""), Ok("f\u{fffd}g".to_string()));
    assert_eq!(normalize_output(true, "\tvalue\t", ""), Ok("value".to_string()));
    assert_eq!(normalize_output(false, "", "  "), Err("command failed".to_string()));
}

#[test]
fn decode_failure_keeps_error_and_payload() {
    assert_eq!(
        decode_failure_message("expected value at line 1", "nope"),
        "failed to parse command JSON output: expected value at line 1; output: nope"
    );
}

#[test]
fn command_arguments() {
    assert_eq!(status_args(), vec!["status"]);
    assert_eq!(daemon_info_args(), vec!["daemon", "info"]);
    assert_eq!(
        daemon_start_args("127.0.0.1:7777", "http://x"),
        vec!["daemon", "start", "--addr", "127.0.0.1:7777", "--public-base-url", "http://x"]
    );
    assert_eq!(daemon_stop_args("a"), vec!["daemon", "stop", "--addr", "a"]);
    assert_eq!(
        daemon_restart_args("a", "u"),
        vec!["daemon", "restart", "--addr", "a", "--public-base-url", "u"]
    );
}

#[test]
fn repo_root_detection() {
    assert!(is_switchly_root(true, true, true));
    assert!(!is_switchly_root(true, false, true));
    assert_eq!(find_repo_root(&vec![(true, false, true), (true, true, true), (true, true, true)]), Some(1));
    assert_eq!(find_repo_root(&vec![(false, true, true)]), None);
    assert_eq!(find_repo_root(&vec![]), None);
}

#[test]
fn window_close_hides_until_quit() {
    assert_eq!(close_action_for(false), CloseAction::Hide);
    assert_eq!(close_action_for(true), CloseAction::Close);
    assert!(!should_close_window(false));
    assert!(should_close_window(true));
    let mut state = AppLifecycleState::new();
    assert!(!state.quitting());
    assert_eq!(state.on_close_requested(), CloseAction::Hide);
    state.request_quit();
    assert!(state.quitting());
    assert_eq!(state.on_close_requested(), CloseAction::Close);
}

#[test]
fn plan_for_each_action() {
    let plan = |id: &str| plan_action(&parse_tray_event(id));
    assert!(matches!(plan(MENU_OPEN_DASHBOARD), Step::ShowDashboard));
    assert!(matches!(plan(MENU_REFRESH), Step::Nothing));
    assert!(matches!(plan(MENU_TOGGLE_AUTOSTART), Step::ToggleAutostart));
    assert!(matches!(plan(MENU_QUIT), Step::Quit));
    assert!(matches!(plan("no-such-entry"), Step::Nothing));
    match plan("account:acc-z") {
        Step::Run { args } => assert_eq!(args, vec!["account", "use", "--id", "acc-z"]),
        other => panic!("unexpected {other:?}"),
    }
    match plan(MENU_DAEMON_RESTART) {
        Step::Run { args } => assert_eq!(args, vec!["daemon", "restart"]),
        other => panic!("unexpected {other:?}"),
    }
}

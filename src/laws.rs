//! Properties that relate several functions or hold of every input.
use vstd::prelude::*;
use vstd::arithmetic::power2::lemma_pow2_pos;
use crate::dispatch::{action_of, command_of, notifies_dashboard, step_of, ActionView, StepView};
use crate::label::shortened;
use crate::menu::{
    menu_model, strategy_of, EntryView, MENU_DAEMON_RESTART, MENU_DAEMON_START,
    MENU_DAEMON_STOP, MENU_OPEN_DASHBOARD, MENU_QUIT, MENU_REFRESH, MENU_STRATEGY_FILL_FIRST,
    MENU_STRATEGY_ROUND_ROBIN, MENU_TOGGLE_AUTOSTART, MENU_ACCOUNT_PREFIX,
};
use crate::model::TrayView;
use crate::percent::{
    clamp_round_percent, is_finite, magnitude_den, magnitude_num, remaining_percent,
    round_half_up, sign_set, scale,
};
use crate::text::{collapse_newlines, trim};

verus! {

/// A percentage is 0 when not finite or negative, its nearest integer when
/// it lies in `[0, 100]`, and 100 above that.
pub proof fn lemma_clamp_round_percent_cases(bits: u64)
    ensures
        !is_finite(bits) ==> clamp_round_percent(bits) == 0,
        sign_set(bits) ==> clamp_round_percent(bits) == 0,
        is_finite(bits) && !sign_set(bits) && magnitude_num(bits) <= 100 * magnitude_den(bits)
            ==> clamp_round_percent(bits) == round_half_up(magnitude_num(bits), magnitude_den(bits)),
        is_finite(bits) && !sign_set(bits) && magnitude_num(bits) > 100 * magnitude_den(bits)
            ==> clamp_round_percent(bits) == 100,
        clamp_round_percent(bits) <= 100,
{
    let num = magnitude_num(bits) as int;
    let den = magnitude_den(bits) as int;
    if scale(bits) < 0 {
        lemma_pow2_pos((-scale(bits)) as nat);
    }
    assert(den > 0);
    let q = (2 * num + den) / (2 * den);
    assert(q * (2 * den) <= 2 * num + den < (q + 1) * (2 * den)) by (nonlinear_arith)
        requires den > 0, q == (2 * num + den) / (2 * den), num >= 0;
    if num <= 100 * den {
        assert(q <= 100) by (nonlinear_arith)
            requires den > 0, q * (2 * den) <= 2 * num + den, num <= 100 * den;
    } else {
        assert(q >= 100) by (nonlinear_arith)
            requires den > 0, 2 * num + den < (q + 1) * (2 * den), num > 100 * den;
    }
}

/// The remaining share is the complement of the used share, within `0..=100`.
pub proof fn lemma_remaining_is_complement(bits: u64)
    ensures
        remaining_percent(bits) == 100 - clamp_round_percent(bits),
        remaining_percent(bits) <= 100,
{
    lemma_clamp_round_percent_cases(bits);
}

/// A message of at most 48 characters, once trimmed and with its line feeds
/// turned into spaces, is shown as it is; a longer one is cut to its first 48
/// characters followed by `"..."`, 51 in all.
pub proof fn lemma_shortened_bounds(message: Seq<char>)
    ensures
        collapse_newlines(trim(message)).len() <= 48 ==> shortened(message) == collapse_newlines(
            trim(message),
        ),
        collapse_newlines(trim(message)).len() > 48 ==> {
            &&& shortened(message).len() == 51
            &&& shortened(message).subrange(0, 48) == collapse_newlines(trim(message)).subrange(
                0,
                48,
            )
            &&& shortened(message).subrange(48, 51) == "..."@
        },
{
    reveal_strlit("...");
    let t = collapse_newlines(trim(message));
    if t.len() > 48 {
        assert(shortened(message).subrange(0, 48) =~= t.subrange(0, 48));
        assert(shortened(message).subrange(48, 51) =~= "..."@);
    }
}

/// The menu is a function of the snapshot and the autostart flag: equal
/// inputs give equal entries, in the same order and with the same checks.
pub proof fn lemma_menu_deterministic(a: TrayView, b: TrayView, x: bool, y: bool)
    requires
        a == b,
        x == y,
    ensures
        menu_model(a, x) == menu_model(b, y),
{
}

pub open spec fn is_checked(e: EntryView) -> bool {
    match e {
        EntryView::Check { checked, .. } => checked,
        _ => false,
    }
}

/// Of the two strategy entries exactly one is checked, the one of the current
/// strategy, when the strategy is known; neither when it is not.
pub proof fn lemma_strategy_checks(s: TrayView, autostart_enabled: bool)
    ensures
        menu_model(s, autostart_enabled)[9] is Check,
        menu_model(s, autostart_enabled)[10] is Check,
        menu_model(s, autostart_enabled)[9]->Check_id == MENU_STRATEGY_FILL_FIRST@,
        menu_model(s, autostart_enabled)[10]->Check_id == MENU_STRATEGY_ROUND_ROBIN@,
        strategy_of(s) is Some ==> is_checked(menu_model(s, autostart_enabled)[9]) != is_checked(
            menu_model(s, autostart_enabled)[10],
        ),
        strategy_of(s) is None ==> !is_checked(menu_model(s, autostart_enabled)[9]) && !is_checked(
            menu_model(s, autostart_enabled)[10],
        ),
{
}

/// Each fixed entry id decodes to its own action, and an id that no entry
/// carries does nothing: no command and no dashboard notification.
pub proof fn lemma_dispatch_table(id: Seq<char>)
    ensures
        action_of(MENU_OPEN_DASHBOARD@) == ActionView::OpenDashboard,
        action_of(MENU_REFRESH@) == ActionView::Refresh,
        action_of(MENU_DAEMON_START@) == ActionView::DaemonStart,
        action_of(MENU_DAEMON_STOP@) == ActionView::DaemonStop,
        action_of(MENU_DAEMON_RESTART@) == ActionView::DaemonRestart,
        action_of(MENU_STRATEGY_FILL_FIRST@) == ActionView::StrategyFillFirst,
        action_of(MENU_STRATEGY_ROUND_ROBIN@) == ActionView::StrategyRoundRobin,
        action_of(MENU_TOGGLE_AUTOSTART@) == ActionView::ToggleAutostart,
        action_of(MENU_QUIT@) == ActionView::Quit,
        action_of(MENU_ACCOUNT_PREFIX@ + id) == (ActionView::UseAccount { id }),
        action_of(id) is Unrecognized ==> command_of(action_of(id)) is None && step_of(
            action_of(id),
        ) == StepView::Nothing && !notifies_dashboard(action_of(id)),
{
    reveal_strlit("open_dashboard");
    reveal_strlit("refresh");
    reveal_strlit("daemon_start");
    reveal_strlit("daemon_stop");
    reveal_strlit("daemon_restart");
    reveal_strlit("strategy_fill_first");
    reveal_strlit("strategy_round_robin");
    reveal_strlit("toggle_autostart");
    reveal_strlit("quit");
    reveal_strlit("account:");
    assert(MENU_OPEN_DASHBOARD@.len() == 14);
    assert(MENU_REFRESH@.len() == 7);
    assert(MENU_DAEMON_START@.len() == 12);
    assert(MENU_DAEMON_STOP@.len() == 11);
    assert(MENU_DAEMON_RESTART@.len() == 14);
    assert(MENU_STRATEGY_FILL_FIRST@.len() == 19);
    assert(MENU_STRATEGY_ROUND_ROBIN@.len() == 20);
    assert(MENU_TOGGLE_AUTOSTART@.len() == 16);
    assert(MENU_QUIT@.len() == 4);
    assert(MENU_ACCOUNT_PREFIX@.len() == 8);
    assert(MENU_DAEMON_RESTART@[0] != MENU_OPEN_DASHBOARD@[0]);
    let full = MENU_ACCOUNT_PREFIX@ + id;
    assert(full.subrange(0, 8) =~= MENU_ACCOUNT_PREFIX@);
    assert(full.subrange(8, full.len() as int) =~= id);
    assert(full[0] == 'a');
    assert(full[1] == 'c');
}

} // verus!

//! Display strings for the tray menu.
use vstd::prelude::*;
use crate::model::{AccountSnapshot, AccountView, QuotaSnapshot, RoutingStrategy};
use crate::percent::{remaining_pct, remaining_percent};
use crate::text::{collapse_newlines, collapse_prefix, decimal, push_decimal, trim, trim_text};

verus! {

/// Longest diagnostic text shown before it is cut.
pub const MAX_ERROR_LEN: usize = 48;

pub open spec fn session_text(q: QuotaSnapshot) -> Seq<char> {
    if q.session_supported == Some(false) {
        "N/A"@
    } else {
        decimal(remaining_percent(q.session.used_percent)) + "%"@
    }
}

/// `"{id} | S:{session} W:{weekly}%{marker}"`, with the remaining shares of
/// both windows and `" !"` as marker when the limit is reached.
pub open spec fn account_label(a: AccountView) -> Seq<char> {
    a.id + " | S:"@ + session_text(a.quota) + " W:"@ + decimal(
        remaining_percent(a.quota.weekly.used_percent),
    ) + "%"@ + if a.quota.limit_reached {
        " !"@
    } else {
        Seq::empty()
    }
}

pub fn account_menu_label(account: &AccountSnapshot) -> (r: String)
    ensures
        r@ == account_label(account@),
{
    let q = account.quota;
    let mut s = String::from_str(account.id.as_str());
    s.append(" | S:");
    let ghost a = s@;
    match q.session_supported {
        Some(false) => {
            s.append("N/A");
        },
        _ => {
            push_decimal(&mut s, remaining_pct(q.session.used_percent));
            s.append("%");
        },
    }
    assert(s@ =~= a + session_text(q));
    s.append(" W:");
    push_decimal(&mut s, remaining_pct(q.weekly.used_percent));
    s.append("%");
    if q.limit_reached {
        s.append(" !");
    }
    assert(s@ =~= account_label(account@));
    s
}

pub open spec fn strategy_label(strategy: Option<RoutingStrategy>) -> Seq<char> {
    match strategy {
        Some(v) => "Current mode: "@ + v.cli_value(),
        None => "Current mode: unknown"@,
    }
}

pub fn strategy_menu_label(strategy: Option<&RoutingStrategy>) -> (r: String)
    ensures
        r@ == strategy_label(
            match strategy {
                Some(v) => Some(*v),
                None => None,
            },
        ),
{
    match strategy {
        Some(value) => String::from_str("Current mode: ").concat(value.as_cli_value()),
        None => String::from_str("Current mode: unknown"),
    }
}

/// The message trimmed, line feeds turned into spaces, and cut to
/// `MAX_ERROR_LEN` characters followed by `"..."` when longer.
pub open spec fn shortened(message: Seq<char>) -> Seq<char> {
    let t = collapse_newlines(trim(message));
    if t.len() <= MAX_ERROR_LEN {
        t
    } else {
        t.subrange(0, MAX_ERROR_LEN as int) + "..."@
    }
}

pub fn shorten_error(message: &str) -> (r: String)
    ensures
        r@ == shortened(message@),
{
    let trimmed = trim_text(message);
    let mut out = collapse_prefix(trimmed.as_str(), MAX_ERROR_LEN);
    if trimmed.unicode_len() > MAX_ERROR_LEN {
        out.append("...");
    }
    out
}

} // verus!

//! Rendering of an uptime given in seconds as days, hours and minutes.

use vstd::prelude::*;
use crate::text::{decimal, push_decimal, push_text};

verus! {

/// Whole days in `secs`.
pub open spec fn uptime_days(secs: nat) -> nat {
    secs / 86400
}

/// Whole hours left over after the days.
pub open spec fn uptime_hours(secs: nat) -> nat {
    (secs % 86400) / 3600
}

/// Whole minutes left over after the hours.
pub open spec fn uptime_minutes(secs: nat) -> nat {
    (secs % 3600) / 60
}

/// `"<d>j <h>h <m>m"`: days, hours and minutes of an uptime.
pub open spec fn uptime_text(secs: nat) -> Seq<char> {
    decimal(uptime_days(secs)) + "j "@ + decimal(uptime_hours(secs)) + "h "@ + decimal(
        uptime_minutes(secs),
    ) + "m"@
}

/// Renders an uptime of `secs` seconds as `"<days>j <hours>h <minutes>m"`.
pub fn format_uptime(secs: u64) -> (s: String)
    ensures
        s@ == uptime_text(secs as nat),
{
    let days = secs / 86400;
    let hours = (secs % 86400) / 3600;
    let mins = (secs % 3600) / 60;
    let mut s = String::new();
    push_decimal(&mut s, days);
    push_text(&mut s, "j ");
    push_decimal(&mut s, hours);
    push_text(&mut s, "h ");
    push_decimal(&mut s, mins);
    push_text(&mut s, "m");
    s
}

/// The rendered parts of an uptime lose only the seconds below a minute:
/// days, hours and minutes recompose the uptime, with fewer than 24 hours
/// and fewer than 60 minutes.
pub proof fn lemma_uptime_parts(secs: nat)
    ensures
        uptime_hours(secs) < 24,
        uptime_minutes(secs) < 60,
        uptime_days(secs) * 86400 + uptime_hours(secs) * 3600 + uptime_minutes(secs) * 60 + secs
            % 60 == secs,
{
    let d = secs / 86400;
    let r = secs % 86400;
    let h = r / 3600;
    let q = r % 3600;
    let m = q / 60;
    assert(secs == d * 86400 + r && r < 86400) by (nonlinear_arith)
        requires
            d == secs / 86400,
            r == secs % 86400,
    ;
    assert(r == h * 3600 + q && q < 3600 && h < 24) by (nonlinear_arith)
        requires
            h == r / 3600,
            q == r % 3600,
            r < 86400,
    ;
    assert(q == m * 60 + q % 60 && m < 60) by (nonlinear_arith)
        requires
            m == q / 60,
            q < 3600,
    ;
    assert(secs % 3600 == q) by (nonlinear_arith)
        requires
            secs == d * 86400 + h * 3600 + q,
            q < 3600,
            0 <= q,
    ;
    assert(secs % 60 == q % 60) by (nonlinear_arith)
        requires
            secs == d * 86400 + h * 3600 + q,
            0 <= q,
    ;
}

/// The uptime text gives, in order, the whole days, the hours left over
/// after them and the minutes left over after the hours.
pub proof fn lemma_uptime_text(secs: nat)
    ensures
        uptime_text(secs) == decimal(secs / 86400) + "j "@ + decimal((secs % 86400) / 3600) + "h "@
            + decimal((secs % 3600) / 60) + "m"@,
{
}

} // verus!

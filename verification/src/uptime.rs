//! Uptime decomposition into whole hours and leftover minutes, and its
//! report line.

use vstd::prelude::*;
use vstd::string::StringExecFns;

use crate::numfmt::{dec_u64, spec_dec};

verus! {

/// Whole hours in an uptime of `secs` seconds.
pub open spec fn spec_uptime_hours(secs: nat) -> nat {
    secs / 3600
}

/// Leftover minutes after the whole hours are taken out.
pub open spec fn spec_uptime_minutes(secs: nat) -> nat {
    (secs % 3600) / 60
}

/// The uptime report line.
pub open spec fn spec_uptime_line(secs: nat) -> Seq<char> {
    "⏳ Uptime: "@ + spec_dec(spec_uptime_hours(secs)) + "h "@ + spec_dec(
        spec_uptime_minutes(secs),
    ) + "m"@
}

/// Splits an uptime in seconds into whole hours and leftover minutes.
pub fn uptime_parts(secs: u64) -> (r: (u64, u64))
    ensures
        r.0 as nat == spec_uptime_hours(secs as nat),
        r.1 as nat == spec_uptime_minutes(secs as nat),
        r.1 < 60,
{
    let hours = secs / 3600;
    let minutes = (secs % 3600) / 60;
    (hours, minutes)
}

/// Builds the uptime report line.
pub fn uptime_line(secs: u64) -> (r: String)
    ensures
        r@ == spec_uptime_line(secs as nat),
{
    let parts = uptime_parts(secs);
    let mut s = "⏳ Uptime: ".to_owned();
    s.append(dec_u64(parts.0).as_str());
    s.append("h ");
    s.append(dec_u64(parts.1).as_str());
    s.append("m");
    assert(s@ =~= spec_uptime_line(secs as nat));
    s
}

} // verus!

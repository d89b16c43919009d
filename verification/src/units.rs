//! Fixed-point unit conversions: bytes to hundredths of a gigabyte,
//! milliwatt-hours to hundredths of a watt-hour, and percentages in tenths.

use vstd::prelude::*;
use vstd::arithmetic::div_mod::{
    lemma_div_is_ordered, lemma_div_multiples_vanish, lemma_fundamental_div_mod, lemma_mod_bound,
};

verus! {

/// Bytes in one gibibyte.
pub open spec fn spec_gib() -> nat {
    0x4000_0000
}

/// A byte count in hundredths of a gibibyte, truncated.
pub open spec fn spec_centi_gb(bytes: nat) -> nat {
    (bytes * 100) / spec_gib()
}

/// A milliwatt-hour count in hundredths of a watt-hour, truncated.
pub open spec fn spec_centi_wh(mwh: nat) -> nat {
    mwh / 10
}

/// The share of `part` in `whole`, in tenths of a percent, truncated.
pub open spec fn spec_percent_deci(part: nat, whole: nat) -> nat {
    (part * 1000) / whole
}

/// Converts a byte count to hundredths of a gibibyte.
pub fn bytes_to_centi_gb(bytes: u64) -> (r: u64)
    ensures
        r as nat == spec_centi_gb(bytes as nat),
{
    let wide: u128 = (bytes as u128) * 100 / 0x4000_0000;
    proof {
        lemma_div_is_ordered(bytes as int * 100, bytes as int * 0x4000_0000, 0x4000_0000);
        lemma_div_multiples_vanish(bytes as int, 0x4000_0000);
        assert(bytes as int * 0x4000_0000 == 0x4000_0000 * bytes as int);
        assert(wide <= bytes);
    }
    wide as u64
}

/// Converts milliwatt-hours to hundredths of a watt-hour.
pub fn mwh_to_centi_wh(mwh: u64) -> (r: u64)
    ensures
        r as nat == spec_centi_wh(mwh as nat),
{
    mwh / 10
}

/// The share of `part` in `whole` as tenths of a percent.
pub fn percent_deci(part: u64, whole: u64) -> (r: u64)
    requires
        0 < whole,
        part <= whole,
    ensures
        r as nat == spec_percent_deci(part as nat, whole as nat),
        r <= 1000,
{
    let wide: u128 = (part as u128) * 1000 / (whole as u128);
    proof {
        lemma_div_is_ordered(part as int * 1000, whole as int * 1000, whole as int);
        lemma_div_multiples_vanish(1000, whole as int);
        assert((whole as int * 1000) / whole as int == 1000);
        assert(wide <= 1000);
    }
    wide as u64
}

/// The used and the free share of a whole, both truncated to tenths of a
/// percent, account together for the full hundred percent up to the two
/// truncations: their sum lands in [99.9%, 100.0%].
pub proof fn lemma_percent_deci_split(whole: nat, avail: nat)
    requires
        0 < whole,
        avail <= whole,
    ensures
        999 <= spec_percent_deci((whole - avail) as nat, whole) + spec_percent_deci(avail, whole),
        spec_percent_deci((whole - avail) as nat, whole) + spec_percent_deci(avail, whole) <= 1000,
{
    let t = whole as int;
    let u = (whole - avail) * 1000;
    let a = avail as int * 1000;
    lemma_fundamental_div_mod(u, t);
    lemma_fundamental_div_mod(a, t);
    lemma_mod_bound(u, t);
    lemma_mod_bound(a, t);
    let qu = u / t;
    let qa = a / t;
    let r = u % t + a % t;
    assert(u + a == t * 1000);
    assert(t * qu + t * qa == t * 1000 - r);
    assert(0 <= r <= 2 * t - 2);
    assert(qu + qa <= 1000) by (nonlinear_arith)
        requires
            t >= 1,
            t * qu + t * qa == t * 1000 - r,
            r >= 0,
    ;
    assert(qu + qa >= 999) by (nonlinear_arith)
        requires
            t >= 1,
            t * qu + t * qa == t * 1000 - r,
            r <= 2 * t - 2,
    ;
}

} // verus!

//! Battery health: the ratio of current to design capacity, and the battery
//! section of the report.
//!
//! Only the first battery device a machine reports is ever considered; when
//! none is found, the section is a fixed fallback line.

use vstd::prelude::*;
use vstd::string::StringExecFns;
use vstd::arithmetic::div_mod::{lemma_div_is_ordered, lemma_div_multiples_vanish};

use crate::numfmt::{dec_u64, fixed1_u128, fixed2_u128, spec_dec, spec_fixed1, spec_fixed2};
use crate::units::{mwh_to_centi_wh, spec_centi_wh};

verus! {

/// One battery device's readings: current and design capacity in
/// milliwatt-hours, and the charge-discharge cycle count.
#[derive(Clone, Copy, Debug, PartialEq, Eq, Structural)]
pub struct BatterySample {
    pub current_mwh: u64,
    pub design_mwh: u64,
    pub cycle_count: u32,
}

impl BatterySample {
    /// Real hardware never reports a zero design capacity; the health
    /// ratio is only defined under this assumption.
    pub open spec fn spec_valid(self) -> bool {
        self.design_mwh > 0
    }
}

/// Battery health in tenths of a percent: current over design capacity,
/// times a thousand, truncated.
pub open spec fn spec_health_deci(current: nat, design: nat) -> nat {
    (current * 1000) / design
}

/// Battery health in tenths of a percent.
pub fn health_deci(current_mwh: u64, design_mwh: u64) -> (r: u128)
    requires
        design_mwh > 0,
    ensures
        r as nat == spec_health_deci(current_mwh as nat, design_mwh as nat),
{
    (current_mwh as u128) * 1000 / (design_mwh as u128)
}

/// Health grows with the current capacity: a battery that kept more of its
/// design capacity reports at least the health of one that kept less.
pub proof fn lemma_health_monotonic(c1: nat, c2: nat, design: nat)
    requires
        design > 0,
        c1 <= c2,
    ensures
        spec_health_deci(c1, design) <= spec_health_deci(c2, design),
{
    lemma_div_is_ordered(c1 as int * 1000, c2 as int * 1000, design as int);
}

/// Within realistic wear, where the current capacity stays under one and a
/// half times the design capacity, health lands in [0%, 150.0%].
pub proof fn lemma_health_range(current: nat, design: nat)
    requires
        design > 0,
        2 * current <= 3 * design,
    ensures
        spec_health_deci(current, design) <= 1500,
{
    lemma_div_is_ordered(current as int * 1000, design as int * 1500, design as int);
    lemma_div_multiples_vanish(1500, design as int);
    assert((design as int * 1500) / design as int == 1500);
}

/// The battery section for the first device found.
pub open spec fn spec_battery_block(b: BatterySample) -> Seq<char> {
    "🔋 Battery Health: "@ + spec_fixed1(
        spec_health_deci(b.current_mwh as nat, b.design_mwh as nat),
    ) + "% ("@ + spec_dec(b.cycle_count as nat) + " cycles)\n📉 Current Max Capacity: "@
        + spec_fixed2(spec_centi_wh(b.current_mwh as nat)) + "Wh\n🏭 Design Capacity: "@
        + spec_fixed2(spec_centi_wh(b.design_mwh as nat)) + "Wh"@
}

/// The battery section when no battery was detected.
pub open spec fn spec_battery_fallback() -> Seq<char> {
    "🔋 Battery: Not Detected"@
}

/// The battery section: the first device's block, or the fallback line.
pub open spec fn spec_battery_section(sample: Option<BatterySample>) -> Seq<char> {
    match sample {
        Some(b) => spec_battery_block(b),
        None => spec_battery_fallback(),
    }
}

/// Builds the battery block for one device.
pub fn battery_block(b: &BatterySample) -> (r: String)
    requires
        b.spec_valid(),
    ensures
        r@ == spec_battery_block(*b),
{
    let mut s = "🔋 Battery Health: ".to_owned();
    s.append(fixed1_u128(health_deci(b.current_mwh, b.design_mwh)).as_str());
    s.append("% (");
    s.append(dec_u64(b.cycle_count as u64).as_str());
    s.append(" cycles)\n📉 Current Max Capacity: ");
    s.append(fixed2_u128(mwh_to_centi_wh(b.current_mwh) as u128).as_str());
    s.append("Wh\n🏭 Design Capacity: ");
    s.append(fixed2_u128(mwh_to_centi_wh(b.design_mwh) as u128).as_str());
    s.append("Wh");
    assert(s@ =~= spec_battery_block(*b));
    s
}

/// Builds the battery section of the report.
pub fn battery_section(sample: &Option<BatterySample>) -> (r: String)
    requires
        match *sample {
            Some(b) => b.spec_valid(),
            None => true,
        },
    ensures
        r@ == spec_battery_section(*sample),
{
    match sample {
        Some(b) => battery_block(b),
        None => "🔋 Battery: Not Detected".to_owned(),
    }
}

} // verus!

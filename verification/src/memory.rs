//! Memory accounting: used bytes, the used percentage, and the RAM block of
//! the report.

use vstd::prelude::*;
use vstd::string::StringExecFns;

use crate::numfmt::{fixed1_u128, fixed2_u128, spec_fixed1, spec_fixed2};
use crate::units::{
    bytes_to_centi_gb, lemma_percent_deci_split, percent_deci, spec_centi_gb, spec_percent_deci,
};

verus! {

/// Total and available memory of the machine, in bytes.
#[derive(Clone, Copy, Debug, PartialEq, Eq, Structural)]
pub struct MemorySample {
    pub total_bytes: u64,
    pub available_bytes: u64,
}

impl MemorySample {
    /// A machine has memory, and no more of it is available than exists.
    pub open spec fn spec_valid(self) -> bool {
        self.total_bytes > 0 && self.available_bytes <= self.total_bytes
    }

    /// Bytes in use: the total minus what is still available.
    pub open spec fn spec_used_bytes(self) -> nat {
        (self.total_bytes - self.available_bytes) as nat
    }

    /// Bytes in use.
    pub fn used_bytes(&self) -> (r: u64)
        requires
            self.spec_valid(),
        ensures
            r as nat == self.spec_used_bytes(),
            r + self.available_bytes == self.total_bytes,
    {
        self.total_bytes - self.available_bytes
    }
}

/// The used and the free share of memory, both in truncated tenths of a
/// percent, sum to the full hundred percent up to the two truncations.
pub proof fn lemma_ram_percent_split(m: MemorySample)
    requires
        m.spec_valid(),
    ensures
        999 <= spec_percent_deci(m.spec_used_bytes(), m.total_bytes as nat) + spec_percent_deci(
            m.available_bytes as nat,
            m.total_bytes as nat,
        ),
        spec_percent_deci(m.spec_used_bytes(), m.total_bytes as nat) + spec_percent_deci(
            m.available_bytes as nat,
            m.total_bytes as nat,
        ) <= 1000,
{
    lemma_percent_deci_split(m.total_bytes as nat, m.available_bytes as nat);
}

/// The RAM block of the report.
pub open spec fn spec_ram_block(m: MemorySample) -> Seq<char> {
    "🛠️ RAM: "@ + spec_fixed2(spec_centi_gb(m.spec_used_bytes())) + "/"@ + spec_fixed2(
        spec_centi_gb(m.total_bytes as nat),
    ) + "GB used ("@ + spec_fixed1(spec_percent_deci(m.spec_used_bytes(), m.total_bytes as nat))
        + "%)\n📊 Max RAM Capacity: "@ + spec_fixed2(spec_centi_gb(m.total_bytes as nat)) + "GB"@
}

/// Builds the RAM block of the report.
pub fn ram_block(m: &MemorySample) -> (r: String)
    requires
        m.spec_valid(),
    ensures
        r@ == spec_ram_block(*m),
{
    let used = m.used_bytes();
    let mut s = "🛠️ RAM: ".to_owned();
    s.append(fixed2_u128(bytes_to_centi_gb(used) as u128).as_str());
    s.append("/");
    s.append(fixed2_u128(bytes_to_centi_gb(m.total_bytes) as u128).as_str());
    s.append("GB used (");
    s.append(fixed1_u128(percent_deci(used, m.total_bytes) as u128).as_str());
    s.append("%)\n📊 Max RAM Capacity: ");
    s.append(fixed2_u128(bytes_to_centi_gb(m.total_bytes) as u128).as_str());
    s.append("GB");
    assert(s@ =~= spec_ram_block(*m));
    s
}

} // verus!

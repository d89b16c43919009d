//! Disk accounting: per-volume used space and the disk blocks of the report.

use vstd::prelude::*;
use vstd::string::StringExecFns;

use crate::numfmt::{fixed1_u128, fixed2_u128, spec_fixed1, spec_fixed2};
use crate::units::{bytes_to_centi_gb, percent_deci, spec_centi_gb, spec_percent_deci};

verus! {

/// One mounted volume: its name and its total and available space in bytes.
#[derive(Clone, Debug)]
pub struct DiskSample {
    pub name: String,
    pub total_bytes: u64,
    pub available_bytes: u64,
}

impl DiskSample {
    /// A volume has space, and no more of it is available than exists.
    pub open spec fn spec_valid(self) -> bool {
        self.total_bytes > 0 && self.available_bytes <= self.total_bytes
    }

    /// Bytes in use: the total minus what is still available.
    pub open spec fn spec_used_bytes(self) -> nat {
        (self.total_bytes - self.available_bytes) as nat
    }

    /// Bytes in use. Used and available space together reconstruct the
    /// total exactly.
    pub fn used_bytes(&self) -> (r: u64)
        requires
            self.spec_valid(),
        ensures
            r as nat == self.spec_used_bytes(),
            r + self.available_bytes == self.total_bytes,
    {
        self.total_bytes - self.available_bytes
    }
}

/// Used and available space account for every byte of a volume.
pub proof fn lemma_disk_reconstruct(d: DiskSample)
    requires
        d.spec_valid(),
    ensures
        d.spec_used_bytes() + d.available_bytes == d.total_bytes,
{
}

/// The report block of one volume.
pub open spec fn spec_disk_block(d: DiskSample) -> Seq<char> {
    "\n💾 Disk ["@ + d.name@ + "]: "@ + spec_fixed2(spec_centi_gb(d.spec_used_bytes())) + "/"@
        + spec_fixed2(spec_centi_gb(d.total_bytes as nat)) + "GB used ("@ + spec_fixed1(
        spec_percent_deci(d.spec_used_bytes(), d.total_bytes as nat),
    ) + "%)\n📊 Total Capacity: "@ + spec_fixed2(spec_centi_gb(d.total_bytes as nat))
        + "GB | Free: "@ + spec_fixed2(spec_centi_gb(d.available_bytes as nat)) + "GB"@
}

/// The report blocks of all volumes, in enumeration order.
pub open spec fn spec_disk_blocks(disks: Seq<DiskSample>) -> Seq<char>
    decreases disks.len(),
{
    if disks.len() == 0 {
        Seq::empty()
    } else {
        spec_disk_blocks(disks.drop_last()) + spec_disk_block(disks.last())
    }
}

/// Builds the report block of one volume.
pub fn disk_block(d: &DiskSample) -> (r: String)
    requires
        d.spec_valid(),
    ensures
        r@ == spec_disk_block(*d),
{
    let used = d.used_bytes();
    let mut s = "\n💾 Disk [".to_owned();
    s.append(d.name.as_str());
    s.append("]: ");
    s.append(fixed2_u128(bytes_to_centi_gb(used) as u128).as_str());
    s.append("/");
    s.append(fixed2_u128(bytes_to_centi_gb(d.total_bytes) as u128).as_str());
    s.append("GB used (");
    s.append(fixed1_u128(percent_deci(used, d.total_bytes) as u128).as_str());
    s.append("%)\n📊 Total Capacity: ");
    s.append(fixed2_u128(bytes_to_centi_gb(d.total_bytes) as u128).as_str());
    s.append("GB | Free: ");
    s.append(fixed2_u128(bytes_to_centi_gb(d.available_bytes) as u128).as_str());
    s.append("GB");
    assert(s@ =~= spec_disk_block(*d));
    s
}

/// Builds the blocks of all volumes, in enumeration order.
pub fn disk_blocks(disks: &Vec<DiskSample>) -> (r: String)
    requires
        forall|i: int| 0 <= i < disks@.len() ==> (#[trigger] disks@[i]).spec_valid(),
    ensures
        r@ == spec_disk_blocks(disks@),
{
    let mut s = String::new();
    let mut i: usize = 0;
    proof {
        assert(disks@.subrange(0, 0) =~= Seq::<DiskSample>::empty());
    }
    while i < disks.len()
        invariant
            i <= disks@.len(),
            forall|j: int| 0 <= j < disks@.len() ==> (#[trigger] disks@[j]).spec_valid(),
            s@ == spec_disk_blocks(disks@.subrange(0, i as int)),
        decreases disks@.len() - i,
    {
        let block = disk_block(&disks[i]);
        s.append(block.as_str());
        proof {
            let pre = disks@.subrange(0, i as int);
            let cur = disks@.subrange(0, i as int + 1);
            assert(cur.drop_last() =~= pre);
            assert(cur.last() == disks@[i as int]);
        }
        i = i + 1;
    }
    proof {
        assert(disks@.subrange(0, disks@.len() as int) =~= disks@);
    }
    s
}

} // verus!

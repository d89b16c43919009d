//! The full system-health report: one snapshot of plain measurements in,
//! one exactly specified text out.

use vstd::prelude::*;
use vstd::string::StringExecFns;

use crate::battery::{battery_section, spec_battery_fallback, spec_battery_section, BatterySample};
use crate::disk::{disk_blocks, spec_disk_blocks, DiskSample};
use crate::memory::{ram_block, spec_ram_block, MemorySample};
use crate::numfmt::{fixed1_u128, spec_fixed1};
use crate::search::{spec_contains, spec_occurs_at};
use crate::sensors::{graphics_line, spec_graphics_line, SensorSample};
use crate::uptime::{spec_uptime_line, uptime_line};

verus! {

/// The first logical processor: its brand string and its instantaneous
/// usage in tenths of a percent.
#[derive(Clone, Debug)]
pub struct CpuSample {
    pub brand: String,
    pub usage_deci: u64,
}

/// The CPU line of the report.
pub open spec fn spec_cpu_line(c: CpuSample) -> Seq<char> {
    "💻 CPU: "@ + c.brand@ + " | Usage: "@ + spec_fixed1(c.usage_deci as nat) + "%"@
}

/// Builds the CPU line of the report.
pub fn cpu_line(c: &CpuSample) -> (r: String)
    ensures
        r@ == spec_cpu_line(*c),
{
    let mut s = "💻 CPU: ".to_owned();
    s.append(c.brand.as_str());
    s.append(" | Usage: ");
    s.append(fixed1_u128(c.usage_deci as u128).as_str());
    s.append("%");
    assert(s@ =~= spec_cpu_line(*c));
    s
}

/// One snapshot of the machine, taken once and read in a single pass:
/// the first processor (if any was enumerated), memory totals, every
/// mounted volume, every thermal sensor, the uptime, and the first
/// battery device (if any was detected).
pub struct Snapshot {
    pub cpu: Option<CpuSample>,
    pub memory: MemorySample,
    pub disks: Vec<DiskSample>,
    pub sensors: Vec<SensorSample>,
    pub uptime_seconds: u64,
    pub battery: Option<BatterySample>,
}

impl Snapshot {
    /// The assumptions the report arithmetic rests on: totals are nonzero
    /// and nothing reports more available than exists.
    pub open spec fn spec_valid(self) -> bool {
        &&& self.memory.spec_valid()
        &&& forall|i: int| 0 <= i < self.disks@.len() ==> (#[trigger] self.disks@[i]).spec_valid()
        &&& match self.battery {
            Some(b) => b.spec_valid(),
            None => true,
        }
    }
}

/// The CPU part of the report: the CPU line and its newline, or nothing
/// when no processor was enumerated.
pub open spec fn spec_cpu_part(cpu: Option<CpuSample>) -> Seq<char> {
    match cpu {
        Some(c) => spec_cpu_line(c) + "\n"@,
        None => Seq::empty(),
    }
}

/// Everything of the report that precedes the battery section.
pub open spec fn spec_report_front(s: Snapshot) -> Seq<char> {
    "\n🔍 System Health Report:\n"@ + spec_cpu_part(s.cpu) + spec_ram_block(s.memory) + "\n"@
        + spec_disk_blocks(s.disks@) + "\n"@ + spec_graphics_line(s.sensors@) + "\n"@
        + spec_uptime_line(s.uptime_seconds as nat) + "\n"@
}

/// The whole report, in fixed order: header, CPU line (when present), RAM
/// block, disk blocks, graphics line, uptime line, battery section, each
/// part ending in a newline.
pub open spec fn spec_report(s: Snapshot) -> Seq<char> {
    spec_report_front(s) + spec_battery_section(s.battery) + "\n"@
}

/// Builds the whole report.
pub fn build_report(s: &Snapshot) -> (r: String)
    requires
        s.spec_valid(),
    ensures
        r@ == spec_report(*s),
{
    let mut out = "\n🔍 System Health Report:\n".to_owned();
    match &s.cpu {
        Some(c) => {
            out.append(cpu_line(c).as_str());
            out.append("\n");
        },
        None => {},
    }
    proof {
        assert(out@ =~= "\n🔍 System Health Report:\n"@ + spec_cpu_part(s.cpu));
    }
    out.append(ram_block(&s.memory).as_str());
    out.append("\n");
    out.append(disk_blocks(&s.disks).as_str());
    out.append("\n");
    out.append(graphics_line(&s.sensors).as_str());
    out.append("\n");
    out.append(uptime_line(s.uptime_seconds).as_str());
    out.append("\n");
    out.append(battery_section(&s.battery).as_str());
    out.append("\n");
    assert(out@ =~= spec_report(*s));
    out
}

/// With no battery detected, the report carries the literal fallback
/// battery line.
pub proof fn lemma_report_no_battery_has_fallback(s: Snapshot)
    requires
        s.battery is None,
    ensures
        spec_contains(spec_report(s), spec_battery_fallback()),
{
    let front = spec_report_front(s);
    let fb = spec_battery_fallback();
    let whole = spec_report(s);
    assert(whole == front + fb + "\n"@);
    let i = front.len() as int;
    assert(whole.subrange(i, i + fb.len()) =~= fb);
    assert(spec_occurs_at(whole, fb, i));
}

} // verus!

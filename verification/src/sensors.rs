//! Thermal sensors and the graphics line of the report: a linear scan for
//! the first sensor whose label holds the substring "GPU".

use vstd::prelude::*;
use vstd::string::StringExecFns;

use crate::numfmt::{fixed1_i64, spec_fixed1_signed};
use crate::search::{label_has_gpu_marker, spec_contains, spec_gpu_marker};

verus! {

/// One thermal sensor: its label and its temperature in tenths of a
/// degree Celsius.
#[derive(Clone, Debug)]
pub struct SensorSample {
    pub label: String,
    pub temp_deci: i64,
}

/// Whether a sensor counts as graphics-related: its label holds "GPU",
/// case-sensitively.
pub open spec fn spec_is_gpu_sensor(s: SensorSample) -> bool {
    spec_contains(s.label@, spec_gpu_marker())
}

/// The first graphics-related sensor of the list, if any.
pub open spec fn spec_first_gpu_sensor(sensors: Seq<SensorSample>) -> Option<SensorSample>
    decreases sensors.len(),
{
    if sensors.len() == 0 {
        None
    } else if spec_is_gpu_sensor(sensors[0]) {
        Some(sensors[0])
    } else {
        spec_first_gpu_sensor(sensors.drop_first())
    }
}

/// The graphics line when no graphics-related sensor was found.
pub open spec fn spec_graphics_fallback() -> Seq<char> {
    "🎮 Graphics: Information not available"@
}

/// The graphics line of the report: the first matching sensor's label and
/// temperature, or the fallback.
pub open spec fn spec_graphics_line(sensors: Seq<SensorSample>) -> Seq<char> {
    match spec_first_gpu_sensor(sensors) {
        Some(s) => "🎮 Graphics: "@ + s.label@ + " | Temp: "@ + spec_fixed1_signed(
            s.temp_deci as int,
        ) + "°C"@,
        None => spec_graphics_fallback(),
    }
}

/// Without a label that holds "GPU", the graphics line is the fallback.
pub proof fn lemma_graphics_no_match(sensors: Seq<SensorSample>)
    requires
        forall|i: int| 0 <= i < sensors.len() ==> !spec_is_gpu_sensor(#[trigger] sensors[i]),
    ensures
        spec_graphics_line(sensors) == spec_graphics_fallback(),
    decreases sensors.len(),
{
    if sensors.len() > 0 {
        assert(!spec_is_gpu_sensor(sensors[0]));
        assert(forall|i: int|
            0 <= i < sensors.drop_first().len() ==> !spec_is_gpu_sensor(
                #[trigger] sensors.drop_first()[i],
            ));
        lemma_graphics_no_match(sensors.drop_first());
    }
}

/// Builds the graphics line of the report.
pub fn graphics_line(sensors: &Vec<SensorSample>) -> (r: String)
    ensures
        r@ == spec_graphics_line(sensors@),
{
    let mut i: usize = 0;
    proof {
        assert(sensors@.skip(0) =~= sensors@);
    }
    while i < sensors.len()
        invariant
            i <= sensors@.len(),
            spec_first_gpu_sensor(sensors@.skip(i as int)) == spec_first_gpu_sensor(sensors@),
        decreases sensors@.len() - i,
    {
        let found = label_has_gpu_marker(sensors[i].label.as_str());
        proof {
            assert(sensors@.skip(i as int)[0] == sensors@[i as int]);
            assert(sensors@.skip(i as int).drop_first() =~= sensors@.skip(i as int + 1));
        }
        if found {
            let s = &sensors[i];
            let mut line = "🎮 Graphics: ".to_owned();
            line.append(s.label.as_str());
            line.append(" | Temp: ");
            line.append(fixed1_i64(s.temp_deci).as_str());
            line.append("°C");
            proof {
                assert(spec_first_gpu_sensor(sensors@) == Some(sensors@[i as int]));
                assert(line@ =~= spec_graphics_line(sensors@));
            }
            return line;
        }
        i = i + 1;
    }
    proof {
        assert(sensors@.skip(sensors@.len() as int) =~= Seq::<SensorSample>::empty());
        assert(spec_first_gpu_sensor(sensors@) is None);
    }
    let r = "🎮 Graphics: Information not available".to_owned();
    r
}

} // verus!

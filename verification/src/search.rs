//! Verified substring search, used to spot GPU-related sensor labels.

use vstd::prelude::*;
use vstd::string::StrSliceExecFns;

verus! {

/// `pat` occurs in `s` starting at position `i`.
pub open spec fn spec_occurs_at(s: Seq<char>, pat: Seq<char>, i: int) -> bool {
    0 <= i && i + pat.len() <= s.len() && s.subrange(i, i + pat.len()) == pat
}

/// `pat` occurs somewhere in `s`.
pub open spec fn spec_contains(s: Seq<char>, pat: Seq<char>) -> bool {
    exists|i: int| spec_occurs_at(s, pat, i)
}

/// The marker that singles out a graphics-related thermal sensor.
pub open spec fn spec_gpu_marker() -> Seq<char> {
    seq!['G', 'P', 'U']
}

/// Whether the label holds the substring "GPU" (case-sensitive).
pub fn label_has_gpu_marker(s: &str) -> (b: bool)
    ensures
        b == spec_contains(s@, spec_gpu_marker()),
{
    let n = s.unicode_len();
    if n < 3 {
        return false;
    }
    let mut i: usize = 0;
    while i <= n - 3
        invariant
            3 <= n,
            n == s@.len(),
            i <= n - 2,
            forall|j: int| 0 <= j < i ==> !spec_occurs_at(s@, spec_gpu_marker(), j),
        decreases n - i,
    {
        let c0 = s.get_char(i);
        let c1 = s.get_char(i + 1);
        let c2 = s.get_char(i + 2);
        if c0 == 'G' && c1 == 'P' && c2 == 'U' {
            proof {
                assert(s@.subrange(i as int, i as int + 3) =~= spec_gpu_marker());
                assert(spec_occurs_at(s@, spec_gpu_marker(), i as int));
            }
            return true;
        }
        proof {
            let ss = s@.subrange(i as int, i as int + 3);
            assert(ss[0] == s@[i as int] && ss[1] == s@[i as int + 1] && ss[2] == s@[i as int
                + 2]);
            assert(!spec_occurs_at(s@, spec_gpu_marker(), i as int));
        }
        i = i + 1;
    }
    proof {
        assert forall|j: int| !spec_occurs_at(s@, spec_gpu_marker(), j) by {
            if 0 <= j && j + 3 <= n {
                assert(j < i);
            }
        }
    }
    false
}

} // verus!

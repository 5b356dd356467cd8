//! Substring search over character sequences, used by the conditional
//! probe pattern: a mutating command runs only when a probe's captured
//! output contains an expected marker.

use vstd::prelude::*;
use vstd::string::StrSliceExecFns;

verus! {

/// `marker` occurs contiguously somewhere inside `text`.
pub open spec fn marker_occurs(text: Seq<char>, marker: Seq<char>) -> bool {
    exists|k: int|
        0 <= k && k + marker.len() <= text.len() && #[trigger] text.subrange(
            k,
            k + marker.len(),
        ) == marker
}

/// `marker` matches `text` exactly at offset `at`.
fn matches_at(text: &str, marker: &str, at: usize) -> (r: bool)
    requires
        at + marker@.len() <= text@.len(),
        text@.len() <= usize::MAX,
    ensures
        r == (text@.subrange(at as int, at + marker@.len()) == marker@),
{
    let ml = marker.unicode_len();
    let mut j: usize = 0;
    while j < ml
        invariant
            j <= ml,
            ml == marker@.len(),
            at + ml <= text@.len(),
            text@.len() <= usize::MAX,
            forall|q: int| 0 <= q < j ==> text@[at + q] == marker@[q],
        decreases ml - j,
    {
        if text.get_char(at + j) != marker.get_char(j) {
            proof {
                assert(text@.subrange(at as int, at + ml as int)[j as int] == text@[at + j]);
            }
            return false;
        }
        j += 1;
    }
    proof {
        assert(text@.subrange(at as int, at + ml as int) =~= marker@);
    }
    true
}

/// Whether `marker` occurs anywhere inside `text`.
pub fn str_contains(text: &str, marker: &str) -> (r: bool)
    ensures
        r == marker_occurs(text@, marker@),
{
    let tl = text.unicode_len();
    let ml = marker.unicode_len();
    if ml > tl {
        return false;
    }
    if ml == 0 {
        proof {
            assert(text@.subrange(0, 0 + marker@.len() as int) =~= marker@);
        }
        return true;
    }
    let mut i: usize = 0;
    while i <= tl - ml
        invariant
            1 <= ml <= tl,
            tl == text@.len(),
            ml == marker@.len(),
            i <= tl - ml + 1,
            forall|k: int| 0 <= k < i ==> #[trigger] text@.subrange(k, k + ml as int) != marker@,
        decreases tl - ml - i + 1,
    {
        if matches_at(text, marker, i) {
            return true;
        }
        i += 1;
    }
    proof {
        if marker_occurs(text@, marker@) {
            let k = choose|k: int|
                0 <= k && k + marker@.len() <= text@.len() && #[trigger] text@.subrange(
                    k,
                    k + marker@.len(),
                ) == marker@;
            assert(k < i);
        }
    }
    false
}

} // verus!

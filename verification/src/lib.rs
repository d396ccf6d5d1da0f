//! Core logic for composing social posts: link detection, attachment
//! classification, MIME validation, open-graph metadata extraction, and
//! record assembly.

pub mod attach;
pub mod image;
pub mod mime;
pub mod preview;
pub mod record;
pub mod uri;

use vstd::prelude::*;

verus! {

/// The literal attachment-section separator line.
pub open spec fn separator_chars() -> Seq<char> {
    "---"@
}

/// True exactly when the two string slices have the same characters.
pub fn str_eq(s: &str, t: &str) -> (r: bool)
    ensures
        r == (s@ == t@),
{
    let n = s.unicode_len();
    let m = t.unicode_len();
    if n != m {
        proof {
            assert(s@ != t@);
        }
        return false;
    }
    let mut i: usize = 0;
    while i < n
        invariant
            0 <= i <= n,
            n == s@.len() == t@.len(),
            forall|k: int| 0 <= k < i ==> s@[k] == t@[k],
        decreases n - i,
    {
        if s.get_char(i) != t.get_char(i) {
            proof {
                assert(s@[i as int] != t@[i as int]);
            }
            return false;
        }
        i = i + 1;
    }
    proof {
        assert(s@ =~= t@);
    }
    true
}

} // verus!

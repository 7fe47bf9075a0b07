//! Compiler-version normalization.
//!
//! Explorers disagree about whether a compiler version string carries the
//! leading `v` marker. A verification request must carry it, so the version
//! taken from the source explorer is normalized: if the string does not begin
//! with `v`, the marker is prepended; a string that already begins with `v`
//! is left unchanged.

use vstd::prelude::*;

verus! {

/// The normalized form of a compiler version string: `v` is prepended unless
/// the string already begins with it.
pub open spec fn spec_normalize_version(v: Seq<char>) -> Seq<char> {
    if v.len() > 0 && v[0] == 'v' {
        v
    } else {
        seq!['v'] + v
    }
}

/// Prepend the leading `v` version marker unless it is already present.
pub fn normalize_compiler_version(v: &str) -> (r: String)
    ensures
        r@ == spec_normalize_version(v@),
{
    let n = v.unicode_len();
    if n > 0 && v.get_char(0) == 'v' {
        v.to_owned()
    } else {
        let mut r = String::from_str("v");
        proof {
            reveal_strlit("v");
            assert(r@ =~= seq!['v']);
        }
        r.append(v);
        r
    }
}

/// Normalization is idempotent, and its result always begins with the
/// version marker.
pub proof fn lemma_normalize_version_idempotent(v: Seq<char>)
    ensures
        spec_normalize_version(spec_normalize_version(v)) == spec_normalize_version(v),
        spec_normalize_version(v).len() > 0,
        spec_normalize_version(v)[0] == 'v',
{
}

} // verus!

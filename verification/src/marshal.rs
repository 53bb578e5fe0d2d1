//! String marshaling toward the engine.
//!
//! The engine takes null-terminated byte buffers, so a host string can
//! only cross the call boundary if it holds no embedded terminator
//! character. The check lives here; the buffer conversion itself is the
//! unverified shim's job, made safe by this check.

use vstd::prelude::*;
use vstd::string::StrSliceExecFns;

use crate::error::NulError;

verus! {

/// Whether the string holds an embedded terminator character.
pub open spec fn contains_nul(s: Seq<char>) -> bool {
    exists|i: int| 0 <= i < s.len() && s[i] == '\u{0}'
}

/// Whether the first `n` characters are free of the terminator.
pub open spec fn nul_free_prefix(s: Seq<char>, n: int) -> bool {
    forall|i: int| 0 <= i < n ==> s[i] != '\u{0}'
}

/// Decide whether `s` may be marshaled into a null-terminated buffer:
/// an embedded terminator is reported with the index, in characters, of
/// its first occurrence.
pub fn check_embedded_nul(s: &str) -> (r: Result<(), NulError>)
    ensures
        r is Ok <==> !contains_nul(s@),
        r matches Err(e) ==> {
            &&& e.position < s@.len()
            &&& s@[e.position as int] == '\u{0}'
            &&& nul_free_prefix(s@, e.position as int)
        },
{
    let n = s.unicode_len();
    let mut i: usize = 0;
    while i < n
        invariant
            n == s@.len(),
            i <= n,
            nul_free_prefix(s@, i as int),
        decreases n - i,
    {
        if s.get_char(i) == '\u{0}' {
            return Err(NulError { position: i });
        }
        i = i + 1;
    }
    Ok(())
}

} // verus!

//! Utilities related to text.

use vstd::prelude::*;
use vstd::string::StrSliceExecFns;

verus! {

/// True when some character occurs at two different positions of `s`.
pub open spec fn has_duplicate(s: Seq<char>) -> bool {
    exists|i: int, j: int| 0 <= i < j < s.len() && s[i] == s[j]
}

/// Checks a string for duplicate characters. Note that this is case-sensitive
/// so the string `"aA"` will not have the two `A`s counted as duplicates.
///
/// Returns `true` exactly when some character of `input` occurs at two
/// different positions. Cipher builders use this to validate configuration,
/// e.g. that a substitution alphabet has no repeated characters.
pub fn check_duplicate_chars(input: &str) -> (dup: bool)
    ensures
        dup == has_duplicate(input@),
{
    let n: usize = input.unicode_len();
    let mut i: usize = 0;
    while i < n
        invariant
            i <= n,
            n == input@.len(),
            forall|a: int, b: int| 0 <= a < b < i ==> input@[a] != input@[b],
        decreases n - i,
    {
        let ci = input.get_char(i);
        let mut j: usize = 0;
        while j < i
            invariant
                j <= i < n,
                n == input@.len(),
                ci == input@[i as int],
                forall|b: int| 0 <= b < j ==> input@[b] != input@[i as int],
            decreases i - j,
        {
            if input.get_char(j) == ci {
                proof {
                    assert(input@[j as int] == input@[i as int]);
                }
                return true;
            }
            j += 1;
        }
        i += 1;
    }
    false
}

} // verus!

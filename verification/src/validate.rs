//! Target validation: character-class and length checks that run before
//! any process is spawned, so that shell metacharacters or oversized
//! input never reach process creation.

use vstd::prelude::*;

verus! {

/// A character the validator accepts: ASCII letters, digits,
/// `'.'`, `'-'`, `':'` and `'_'`.
pub open spec fn allowed_char(c: char) -> bool {
    ('a' <= c && c <= 'z') || ('A' <= c && c <= 'Z') || ('0' <= c && c <= '9') || c == '.' || c
        == '-' || c == ':' || c == '_'
}

/// A well-formed target: non-empty, at most 255 characters, every
/// character drawn from [`allowed_char`]. Nothing more is checked;
/// semantic validation (resolvable hostname, well-formed address) is
/// left to the underlying tool.
pub open spec fn target_ok(s: Seq<char>) -> bool {
    &&& 1 <= s.len()
    &&& s.len() <= 255
    &&& forall|i: int| 0 <= i < s.len() ==> allowed_char(s[i])
}

/// Decides [`target_ok`] for a target string.
pub fn is_valid_target(target: &str) -> (r: bool)
    ensures
        r == target_ok(target@),
{
    let n = target.unicode_len();
    if n == 0 || n > 255 {
        return false;
    }
    let mut i: usize = 0;
    while i < n
        invariant
            n == target@.len(),
            1 <= n <= 255,
            i <= n,
            forall|j: int| 0 <= j < i ==> allowed_char(target@[j]),
        decreases n - i,
    {
        let c = target.get_char(i);
        let lower = 'a' <= c && c <= 'z';
        let upper = 'A' <= c && c <= 'Z';
        let digit = '0' <= c && c <= '9';
        let punct = c == '.' || c == '-' || c == ':' || c == '_';
        if !(lower || upper || digit || punct) {
            return false;
        }
        i = i + 1;
    }
    true
}

} // verus!

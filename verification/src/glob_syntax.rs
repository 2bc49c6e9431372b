//! Glob metacharacters in the text of a path.

use vstd::prelude::*;

verus! {

/// The byte `*`.
pub const STAR: u8 = 0x2a;

/// The byte `?`.
pub const QUESTION_MARK: u8 = 0x3f;

/// The byte `[`.
pub const OPEN_BRACKET: u8 = 0x5b;

/// Whether `b` opens a glob pattern: `*`, `?` or `[`.
pub open spec fn is_glob_byte(b: u8) -> bool {
    b == STAR || b == QUESTION_MARK || b == OPEN_BRACKET
}

/// No byte of `s` before position `end` is a glob byte.
pub open spec fn glob_free(s: Seq<u8>, end: int) -> bool {
    forall|i: int| 0 <= i < end ==> !is_glob_byte(#[trigger] s[i])
}

/// Position `i` holds the first glob byte of `s`.
pub open spec fn is_glob_start(s: Seq<u8>, i: int) -> bool {
    0 <= i < s.len() && is_glob_byte(s[i]) && glob_free(s, i)
}

/// Whether `s` holds a glob byte anywhere.
pub open spec fn has_glob_syntax(s: Seq<u8>) -> bool {
    !glob_free(s, s.len() as int)
}

/// The index of the first glob metacharacter of `path`, or `None` where the
/// path is a literal one.
pub fn get_glob_start_idx(path: &[u8]) -> (r: Option<usize>)
    ensures
        match r {
            Some(i) => is_glob_start(path@, i as int),
            None => !has_glob_syntax(path@),
        },
{
    let mut i: usize = 0;
    while i < path.len()
        invariant
            i <= path.len(),
            glob_free(path@, i as int),
        decreases path.len() - i,
    {
        let b: u8 = path[i];
        if b == STAR || b == QUESTION_MARK || b == OPEN_BRACKET {
            return Some(i);
        }
        i += 1;
    }
    None
}

} // verus!

//! Directory names as text.
//!
//! A path is the text that is handed to `git -C` or that `git` printed.  Its
//! parts are separated by `/`, and it is absolute when it begins with one.

use vstd::prelude::*;
use vstd::string::*;

verus! {

/// The separator between the parts of a path.
pub const SEPARATOR: char = '/';

/// A path is absolute when it begins at the root.
pub open spec fn is_absolute(path: Seq<char>) -> bool {
    path.len() > 0 && path[0] == SEPARATOR
}

/// `path` as seen from `base`: an absolute `path` stands for itself, any
/// other follows `base`, after a separator where `base` does not end in one.
pub open spec fn joined(base: Seq<char>, path: Seq<char>) -> Seq<char> {
    if is_absolute(path) {
        path
    } else if base.len() > 0 && base.last() != SEPARATOR {
        base.push(SEPARATOR) + path
    } else {
        base + path
    }
}

/// Resolves `path` against the directory `base`.
pub fn join(base: &str, path: &str) -> (result: String)
    ensures
        result@ == joined(base@, path@),
{
    if path.unicode_len() > 0 && path.get_char(0) == SEPARATOR {
        return path.to_owned();
    }
    let mut result = base.to_owned();
    let n: usize = base.unicode_len();
    if n > 0 && base.get_char(n - 1) != SEPARATOR {
        proof {
            reveal_strlit("/");
        }
        result.append("/");
    }
    result.append(path);
    result
}

} // verus!

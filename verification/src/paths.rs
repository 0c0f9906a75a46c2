//! Inferring the compressed flag from a file path.
//!
//! A record's data counts as compressed when the path's file name has an
//! extension and that extension ends in `lz4` (`.jsonlz4`, `.baklz4`, ...).
//! The file name is what follows the last path separator; its extension is
//! what follows the last dot, provided that dot is not the file name's first
//! character (so dot-files have no extension).

use vstd::prelude::*;
use vstd::string::StringExecFns;

verus! {

pub open spec fn is_path_separator(c: char) -> bool {
    c == '/' || c == '\\'
}

/// Index where the file name starts, found by scanning down from `i` for a
/// separator.
pub open spec fn name_start_from(p: Seq<char>, i: int) -> int
    decreases i,
{
    if i <= 0 {
        0
    } else if is_path_separator(p[i - 1]) {
        i
    } else {
        name_start_from(p, i - 1)
    }
}

/// Index where the file name of `p` starts.
pub open spec fn spec_name_start(p: Seq<char>) -> int {
    name_start_from(p, p.len() as int)
}

/// Index of the last dot at position `lo` or later, scanning down from `i`;
/// -1 if there is none.
pub open spec fn last_dot_from(p: Seq<char>, i: int, lo: int) -> int
    decreases i - lo,
{
    if i <= lo {
        -1
    } else if p[i - 1] == '.' {
        i - 1
    } else {
        last_dot_from(p, i - 1, lo)
    }
}

/// Index of the dot that begins the extension of `p`, or -1 when the file
/// name has no extension. The dot must lie strictly after the file name's
/// first character.
pub open spec fn spec_extension_start(p: Seq<char>) -> int {
    last_dot_from(p, p.len() as int, spec_name_start(p) + 1)
}

/// Whether the path's extension ends in `lz4`.
pub open spec fn spec_is_lz4_path(p: Seq<char>) -> bool {
    let d = spec_extension_start(p);
    let n = p.len() as int;
    &&& d >= 0
    &&& n - (d + 1) >= 3
    &&& p[n - 3] == 'l'
    &&& p[n - 2] == 'z'
    &&& p[n - 1] == '4'
}

/// Finds the index of the dot that begins the path's extension, if the
/// path has one.
fn find_extension_start(path: &str) -> (r: Option<usize>)
    ensures
        match r {
            Some(d) => spec_extension_start(path@) == d && d < path@.len(),
            None => spec_extension_start(path@) == -1,
        },
{
    let n = path.unicode_len();

    let mut i: usize = n;
    let mut ns: usize = 0;
    while i > 0
        invariant_except_break
            i <= n,
            n == path@.len(),
            ns == 0,
            name_start_from(path@, n as int) == name_start_from(path@, i as int),
        ensures
            ns == spec_name_start(path@),
        decreases i,
    {
        let c = path.get_char(i - 1);
        if c == '/' || c == '\\' {
            ns = i;
            break;
        }
        i = i - 1;
    }

    let mut j: usize = n;
    let mut dot: usize = 0;
    let mut dot_found = false;
    while j > 0 && j - 1 > ns
        invariant_except_break
            j <= n,
            n == path@.len(),
            ns == spec_name_start(path@),
            !dot_found,
            last_dot_from(path@, n as int, ns + 1) == last_dot_from(path@, j as int, ns + 1),
        ensures
            dot_found ==> dot == spec_extension_start(path@) && dot < n,
            !dot_found ==> spec_extension_start(path@) == -1,
        decreases j,
    {
        let c = path.get_char(j - 1);
        if c == '.' {
            dot = j - 1;
            dot_found = true;
            break;
        }
        j = j - 1;
    }

    if dot_found {
        Some(dot)
    } else {
        None
    }
}

/// Decides [`spec_is_lz4_path`] for a path.
pub fn path_has_lz4_extension(path: &str) -> (b: bool)
    ensures
        b == spec_is_lz4_path(path@),
{
    let n = path.unicode_len();
    let dot = match find_extension_start(path) {
        Some(d) => d,
        None => {
            return false;
        },
    };
    if n - (dot + 1) < 3 {
        return false;
    }
    let c1 = path.get_char(n - 3);
    let c2 = path.get_char(n - 2);
    let c3 = path.get_char(n - 1);
    c1 == 'l' && c2 == 'z' && c3 == '4'
}

/// The save path with its extension defaulted: unchanged when the path
/// already has an extension, else with a dot and `extension` appended.
pub fn default_save_extension(path: &str, extension: &str) -> (r: String)
    ensures
        spec_extension_start(path@) >= 0 ==> r@ == path@,
        spec_extension_start(path@) < 0 ==> r@ == path@ + "."@ + extension@,
{
    match find_extension_start(path) {
        Some(_) => path.to_owned(),
        None => path.to_owned().concat(".").concat(extension),
    }
}

} // verus!

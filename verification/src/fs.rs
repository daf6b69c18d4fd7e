//! File names.

use vstd::prelude::*;
use vstd::string::*;

verus! {

/// The position of the last dot in a name among its first `upto`
/// characters, or -1 if there is none.
pub open spec fn last_dot(name: Seq<char>, upto: int) -> int
    decreases upto,
{
    if upto <= 0 {
        -1
    } else if name[upto - 1] == '.' {
        upto - 1
    } else {
        last_dot(name, upto - 1)
    }
}

/// The stem of a file's name: the name up to its last dot. A name without a
/// dot, or with its only dot in front, is its own stem.
pub open spec fn file_stem(name: Seq<char>) -> Seq<char> {
    let dot = last_dot(name, name.len() as int);
    if dot <= 0 {
        name
    } else {
        name.take(dot)
    }
}

/// The file's name with its extension replaced: the stem, a dot and the new
/// extension.
pub open spec fn with_extension(name: Seq<char>, extension: Seq<char>) -> Seq<char> {
    file_stem(name) + "."@ + extension
}

/// Replaces the extension of a file's name. `name` is the last component of
/// a path, without any directory.
pub fn replace_extension(name: &str, extension: &str) -> (r: String)
    ensures
        r@ == with_extension(name@, extension@),
{
    let len = name.unicode_len();
    let mut i: usize = len;
    let mut dot: usize = 0;
    let mut found = false;
    while i > 0 && !found
        invariant
            i <= len,
            len == name@.len(),
            !found ==> last_dot(name@, len as int) == last_dot(name@, i as int),
            found ==> last_dot(name@, len as int) == dot && dot < len,
        decreases i + (if found { 0int } else { 1int }),
    {
        if name.get_char(i - 1) == '.' {
            dot = i - 1;
            found = true;
        } else {
            i -= 1;
        }
    }
    let mut r = if found && dot > 0 {
        let stem = name.substring_char(0, dot);
        assert(stem@ =~= name@.take(dot as int));
        String::from_str(stem)
    } else {
        String::from_str(name)
    };
    r.append(".");
    r.append(extension);
    r
}

} // verus!

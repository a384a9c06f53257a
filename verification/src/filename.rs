//! File names: the extension after the last dot.

use vstd::prelude::*;
use vstd::string::StrSliceExecFns;

verus! {

/// The lower-case equivalent of a text, as Unicode defines it.
pub uninterp spec fn lowercased(text: Seq<char>) -> Seq<char>;

/// `str::to_lowercase` returns the lower-case equivalent of the text, which
/// depends on the text alone.
pub assume_specification[ str::to_lowercase ](s: &str) -> (lower: String)
    ensures
        lower@ == lowercased(s@),
;

/// Whether position `i` holds the last dot of `name`.
pub open spec fn is_last_dot(name: Seq<char>, i: int) -> bool {
    &&& 0 <= i < name.len()
    &&& name[i] == '.'
    &&& forall|j: int| i < j < name.len() ==> name[j] != '.'
}

/// What follows the last dot of `name`; nothing where `name` has no dot.
pub open spec fn extension_part(name: Seq<char>) -> Seq<char> {
    if exists|i: int| is_last_dot(name, i) {
        let i = choose|i: int| is_last_dot(name, i);
        name.subrange(i + 1, name.len() as int)
    } else {
        Seq::empty()
    }
}

/// A name has at most one last dot.
pub proof fn lemma_last_dot_unique(name: Seq<char>, i: int, j: int)
    requires
        is_last_dot(name, i),
        is_last_dot(name, j),
    ensures
        i == j,
{
}

/// The text of an optional string slice.
pub open spec fn option_str(s: Option<&str>) -> Option<Seq<char>> {
    match s {
        Some(s) => Some(s@),
        None => None,
    }
}

/// What `extension_of` returns.
pub open spec fn extension_found(name: Seq<char>) -> Option<Seq<char>> {
    if name.contains('.') {
        Some(extension_part(name))
    } else {
        None
    }
}

/// The text that `get_file_extension` returns.
pub open spec fn file_extension_text(name: Seq<char>) -> Seq<char> {
    match extension_found(name) {
        Some(extension) => lowercased(extension),
        None => Seq::empty(),
    }
}

/// The part of a file name after its last dot, as it is written, or `None`
/// where the name has no dot.
pub fn extension_of(filename: &str) -> (extension: Option<&str>)
    ensures
        option_str(extension) == extension_found(filename@),
{
    let len = filename.unicode_len();
    let mut i = len;
    while i > 0
        invariant
            i <= len,
            len == filename@.len(),
            forall|j: int| i <= j < len ==> filename@[j] != '.',
        decreases i,
    {
        if filename.get_char(i - 1) == '.' {
            proof {
                assert(is_last_dot(filename@, i - 1));
                let chosen = choose|k: int| is_last_dot(filename@, k);
                lemma_last_dot_unique(filename@, chosen, i - 1);
            }
            return Some(filename.substring_char(i, len));
        }
        i -= 1;
    }
    None
}

/// The extension of a file name, in lower case: what follows the last dot,
/// or the empty string where the name has no dot.
pub fn get_file_extension(filename: &str) -> (extension: String)
    ensures
        extension@ == file_extension_text(filename@),
        !filename@.contains('.') ==> extension@.len() == 0,
{
    match extension_of(filename) {
        Some(extension) => extension.to_lowercase(),
        None => String::new(),
    }
}

} // verus!

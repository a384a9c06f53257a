//! Where an uploaded file is stored: the path of an object, and the name a
//! caller gave the file, made safe to stand in that path.

use vstd::prelude::*;
use vstd::string::{StrSliceExecFns, StringExecFns};
use crate::ambient::{random_uuid_text, UUID_TEXT_LEN};

verus! {

/// Whether a character is replaced when a file name is made safe: the space,
/// both slashes, and the marks that mean something in a URL.
pub open spec fn is_unsafe_char(c: char) -> bool {
    c == ' ' || c == '/' || c == '\\' || c == '?' || c == '#' || c == '&'
}

/// A character as it stands in a safe file name.
pub open spec fn safe_char(c: char) -> char {
    if is_unsafe_char(c) {
        '_'
    } else {
        c
    }
}

/// A text with every unsafe character replaced by an underscore.
pub open spec fn safe_text(name: Seq<char>) -> Seq<char> {
    Seq::new(name.len(), |i: int| safe_char(name[i]))
}

/// The path of a user's file: `users/<user>/files/<unique>-<name>`.
pub open spec fn storage_path_text(user_id: Seq<char>, unique: Seq<char>, file_name: Seq<char>) -> Seq<
    char,
> {
    "users/"@ + user_id + "/files/"@ + unique + "-"@ + file_name
}

/// Whether `part` is a run of consecutive characters of `whole`, and not
/// empty.
pub open spec fn is_part_of(part: Seq<char>, whole: Seq<char>) -> bool {
    &&& part.len() > 0
    &&& exists|start: int|
        0 <= start && start + part.len() <= whole.len() && #[trigger] whole.subrange(
            start,
            start + part.len(),
        ) == part
}

/// Whether `safe` is a name that `sanitize_filename` may give for
/// `filename`: the safe form of a part of `filename`, or, for a name without
/// a last component, the safe form of a fresh identifier.
pub open spec fn is_sanitized_from(safe: Seq<char>, filename: Seq<char>) -> bool {
    exists|name: Seq<char>|
        safe == #[trigger] safe_text(name) && (is_part_of(name, filename) || name.len()
            == UUID_TEXT_LEN)
}

/// Calls `Path::file_name` of std: the final component of a path, where it
/// has one.
///
/// Trusted, from its documentation: a component is a part of the path as it
/// is written, and it is never empty, since repeated and trailing separators
/// are passed over. Which part it is depends on what the platform takes for
/// a separator, so no more is claimed. The path is made of a string here, so
/// the component is text too and `to_string_lossy` changes nothing.
#[verifier::external_body]
fn last_path_component(path: &str) -> (name: Option<String>)
    ensures
        name is Some ==> is_part_of(name->Some_0@, path@),
{
    match std::path::Path::new(path).file_name() {
        Some(name) => Some(name.to_string_lossy().to_string()),
        None => None,
    }
}

/// Replaces every unsafe character of `name` by an underscore and leaves the
/// others as they are.
pub fn replace_unsafe_chars(name: &str) -> (safe: String)
    ensures
        safe@ == safe_text(name@),
        forall|i: int| 0 <= i < safe@.len() ==> !is_unsafe_char(#[trigger] safe@[i]),
{
    let len = name.unicode_len();
    let mut safe = String::new();
    let mut i: usize = 0;
    while i < len
        invariant
            i <= len,
            len == name@.len(),
            safe@ == safe_text(name@.subrange(0, i as int)),
        decreases len - i,
    {
        let c = name.get_char(i);
        if c == ' ' || c == '/' || c == '\\' || c == '?' || c == '#' || c == '&' {
            safe.push('_');
        } else {
            safe.push(c);
        }
        assert(safe@ =~= safe_text(name@.subrange(0, i + 1)));
        i += 1;
    }
    assert(name@.subrange(0, i as int) =~= name@);
    safe
}

/// Makes the name of an uploaded file safe to stand in a storage path: only
/// the last component of the name is kept, and every unsafe character in it
/// is replaced. A name without a last component gives a fresh random name.
///
/// The result is never empty. It is the safe form of a part of `filename`,
/// as long as that part, or of an identifier of `UUID_TEXT_LEN` characters;
/// for an empty `filename` it is the latter.
pub fn sanitize_filename(filename: &str) -> (safe: String)
    ensures
        is_sanitized_from(safe@, filename@),
        0 < safe@.len(),
        safe@.len() <= filename@.len() || safe@.len() == UUID_TEXT_LEN,
        forall|i: int| 0 <= i < safe@.len() ==> !is_unsafe_char(#[trigger] safe@[i]),
{
    match last_path_component(filename) {
        Some(name) => {
            let safe = replace_unsafe_chars(name.as_str());
            assert(safe@ == safe_text(name@) && is_part_of(name@, filename@));
            safe
        },
        None => {
            let fresh = random_uuid_text();
            let safe = replace_unsafe_chars(fresh.as_str());
            assert(safe@ == safe_text(fresh@) && fresh@.len() == UUID_TEXT_LEN);
            safe
        },
    }
}

/// The path under which a user's file is stored. `unique` keeps two uploads
/// of the same name apart.
pub fn storage_path(user_id: &str, unique: &str, file_name: &str) -> (path: String)
    ensures
        path@ == storage_path_text(user_id@, unique@, file_name@),
{
    let mut path = String::from_str("users/");
    path.append(user_id);
    path.append("/files/");
    path.append(unique);
    path.append("-");
    path.append(file_name);
    path
}

/// The path for a new upload of `file_name` by `user_id`: the name is made
/// safe, and a fresh random identifier goes before it.
pub fn new_storage_path(user_id: &str, file_name: &str) -> (path: String)
    ensures
        exists|unique: Seq<char>, safe: Seq<char>|
            path@ == #[trigger] storage_path_text(user_id@, unique, safe) && (forall|i: int|
                0 <= i < safe.len() ==> !is_unsafe_char(#[trigger] safe[i])),
{
    let unique = random_uuid_text();
    let safe = sanitize_filename(file_name);
    storage_path(user_id, unique.as_str(), safe.as_str())
}

} // verus!

//! Small shared helpers: permission checks, character search in strings, and
//! mime-type inference over growing prefixes of a byte buffer.

use vstd::prelude::*;
use vstd::slice::slice_subrange;
use vstd::string::StrSliceExecFns;

verus! {

use crate::config::{Permission, User};

/// For checking if a user has the specified permission.
pub fn has_permission(user: &User, permission: Permission) -> (r: bool)
    ensures
        r == user.permissions@.contains(permission),
{
    let mut i: usize = 0;
    while i < user.permissions.len()
        invariant
            i <= user.permissions@.len(),
            forall|j: int| 0 <= j < i ==> user.permissions@[j] != permission,
        decreases user.permissions@.len() - i,
    {
        if user.permissions[i] == permission {
            return true;
        }
        i = i + 1;
    }
    false
}

/// Index of the first occurrence of `c` in `s` at or after `from`.
pub open spec fn index_of_from(s: Seq<char>, c: char, from: int) -> Option<int>
    decreases s.len() - from,
{
    if from < 0 || from >= s.len() {
        None
    } else if s[from] == c {
        Some(from)
    } else {
        index_of_from(s, c, from + 1)
    }
}

/// Scan `s` for the first `c` at or after position `from`.
pub fn find_char_from(s: &str, c: char, from: usize) -> (r: Option<usize>)
    requires
        from <= s@.len(),
    ensures
        match r {
            Some(i) => index_of_from(s@, c, from as int) == Some(i as int) && from <= i < s@.len()
                && s@[i as int] == c,
            None => index_of_from(s@, c, from as int) is None,
        },
{
    let n = s.unicode_len();
    let mut i: usize = from;
    while i < n
        invariant
            from <= i <= n,
            n == s@.len(),
            index_of_from(s@, c, from as int) == index_of_from(s@, c, i as int),
        decreases n - i,
    {
        if s.get_char(i) == c {
            return Some(i);
        }
        i = i + 1;
    }
    None
}

/// The mime type the file-type matcher reports for a byte sequence, when it
/// recognises one; a function of the bytes alone.
pub uninterp spec fn inferred_mime(bytes: Seq<u8>) -> Option<Seq<char>>;

/// Relies on infer::get and infer::Type::mime_type: the file type recognised
/// in a buffer, and its mime type, depend on the buffer's bytes alone.
#[verifier::external_body]
fn infer_mime(bytes: &[u8]) -> (r: Option<String>)
    ensures
        match r {
            Some(m) => inferred_mime(bytes@) == Some(m@),
            None => inferred_mime(bytes@) is None,
        },
{
    infer::get(bytes).map(|t| t.mime_type().to_owned())
}

/// Infers a buffer's mime type without reading it completely: the buffer is
/// fed to the matcher by growing strict prefixes, and the first recognised
/// one decides. The empty string is returned when no strict prefix is
/// recognised.
pub fn partial_infer(bytes: &[u8]) -> (mime: String)
    ensures
        (exists|end: int| 0 <= end < bytes@.len() && inferred_mime(bytes@.subrange(0, end)) is Some)
            ==> exists|end: int|
                0 <= end < bytes@.len()
                && inferred_mime(bytes@.subrange(0, end)) == Some(mime@)
                && (forall|e: int| 0 <= e < end ==> inferred_mime(bytes@.subrange(0, e)) is None),
        (forall|end: int| 0 <= end < bytes@.len() ==> inferred_mime(bytes@.subrange(0, end)) is None)
            ==> mime@ == Seq::<char>::empty(),
{
    let n = bytes.len();
    let mut end: usize = 0;
    while end < n
        invariant
            end <= n == bytes@.len(),
            forall|e: int| 0 <= e < end ==> inferred_mime(bytes@.subrange(0, e)) is None,
        decreases n - end,
    {
        let prefix = slice_subrange(bytes, 0, end);
        if let Some(mime) = infer_mime(prefix) {
            return mime;
        }
        end = end + 1;
    }
    String::new()
}

/// The sub-part of a mime type: what stands between the first slash and the
/// second, or the end — the second segment a split at slashes yields.
pub open spec fn mime_subtype_spec(s: Seq<char>) -> Option<Seq<char>> {
    match index_of_from(s, '/', 0) {
        None => None,
        Some(i) => match index_of_from(s, '/', i + 1) {
            None => Some(s.subrange(i + 1, s.len() as int)),
            Some(j) => Some(s.subrange(i + 1, j)),
        },
    }
}

/// The sub-part of a mime type, used as a file extension: "jpeg" out of
/// "image/jpeg"; nothing when the mime type carries no slash.
pub fn mime_subtype<'a>(mime: &'a str) -> (r: Option<&'a str>)
    ensures
        match r {
            Some(sub) => mime_subtype_spec(mime@) == Some(sub@),
            None => mime_subtype_spec(mime@) is None,
        },
{
    let n = mime.unicode_len();
    match find_char_from(mime, '/', 0) {
        None => None,
        Some(i) => match find_char_from(mime, '/', i + 1) {
            None => Some(mime.substring_char(i + 1, n)),
            Some(j) => Some(mime.substring_char(i + 1, j)),
        },
    }
}

} // verus!

//! The decisions behind the request handlers. The HTTP transport, the
//! filesystem and the multipart framing stay in the surrounding layer; what
//! is computed from the request values stands here.

use vstd::prelude::*;
use vstd::string::StrSliceExecFns;

verus! {

/// Response for all handlers.
#[derive(Debug, Clone)]
pub struct Response {
    /// Hashes that have been created, updated or deleted.
    pub hashes: Vec<String>,
    /// Hashes that have been skipped for some reason.
    pub skipped: Vec<String>,
}

impl Response {
    pub fn new(hashes: Vec<String>, skipped: Vec<String>) -> (r: Response)
        ensures
            r.hashes == hashes,
            r.skipped == skipped,
    {
        Response { hashes, skipped }
    }
}

/// The form holding all the hashes a client wants removed.
#[derive(Debug, Clone)]
pub struct Remove {
    /// List of hashes to remove.
    pub hashes: Vec<String>,
}

/// A hash names a stored file only at exactly this length.
pub const HASH_LENGTH: usize = 24;

/// Whether a hash meets the length requirement for removal.
pub open spec fn hash_ok(h: Seq<char>) -> bool {
    h.len() == HASH_LENGTH
}

/// The hashes of `s` that are removed: those of the accepted length, in
/// order.
pub open spec fn removed_of(s: Seq<String>) -> Seq<String>
    decreases s.len(),
{
    if s.len() == 0 {
        Seq::empty()
    } else if hash_ok(s.last()@) {
        removed_of(s.drop_last()).push(s.last())
    } else {
        removed_of(s.drop_last())
    }
}

/// The hashes of `s` that are skipped: those failing the length requirement,
/// in order.
pub open spec fn skipped_of(s: Seq<String>) -> Seq<String>
    decreases s.len(),
{
    if s.len() == 0 {
        Seq::empty()
    } else if hash_ok(s.last()@) {
        skipped_of(s.drop_last())
    } else {
        skipped_of(s.drop_last()).push(s.last())
    }
}

/// Split the hashes of a removal form into those to remove and those to
/// skip: a hash is removed exactly when it has the accepted length, and both
/// lists keep the form's order. The surrounding layer then deletes each
/// removed hash's file.
pub fn partition_hashes(form: &Remove) -> (r: (Vec<String>, Vec<String>))
    ensures
        r.0@ == removed_of(form.hashes@),
        r.1@ == skipped_of(form.hashes@),
{
    let mut removed: Vec<String> = Vec::new();
    let mut skipped: Vec<String> = Vec::new();
    let n = form.hashes.len();
    let mut i: usize = 0;
    while i < n
        invariant
            i <= n == form.hashes@.len(),
            removed@ == removed_of(form.hashes@.take(i as int)),
            skipped@ == skipped_of(form.hashes@.take(i as int)),
        decreases n - i,
    {
        let h = &form.hashes[i];
        proof {
            assert(form.hashes@.take(i + 1).drop_last() =~= form.hashes@.take(i as int));
            assert(form.hashes@.take(i + 1).last() == form.hashes@[i as int]);
        }
        if h.unicode_len() == HASH_LENGTH {
            removed.push(h.clone());
        } else {
            skipped.push(h.clone());
        }
        i = i + 1;
    }
    proof {
        assert(form.hashes@.take(n as int) =~= form.hashes@);
    }
    (removed, skipped)
}

/// Under what label an upload field is skipped when its content's type could
/// not be inferred: its name, or a fixed marker when it has none.
pub fn skip_label(name: &String) -> (r: String)
    ensures
        name@.len() == 0 ==> r@ == "[UNNAMED FIELD]"@,
        name@.len() > 0 ==> r@ == name@,
{
    if name.as_str().unicode_len() == 0 {
        "[UNNAMED FIELD]".to_owned()
    } else {
        name.clone()
    }
}

} // verus!

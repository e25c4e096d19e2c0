//! Combining and splitting ciphertext and tag for the AEAD families.
use vstd::prelude::*;
use vstd::slice::slice_subrange;

verus! {

/// Length in bytes of every authentication tag of the AEAD families.
pub const TAG_LEN: usize = 16;

/// Appends `tag` after `ciphertext`.
pub fn combine(ciphertext: Vec<u8>, tag: &[u8; TAG_LEN]) -> (r: Vec<u8>)
    requires
        ciphertext@.len() + TAG_LEN <= usize::MAX,
    ensures
        r@ == ciphertext@ + tag@,
        r@.len() == ciphertext@.len() + TAG_LEN,
{
    let mut out = ciphertext;
    out.extend_from_slice(tag.as_slice());
    out
}

/// The ciphertext part of a combined buffer: all but the last `TAG_LEN` bytes.
pub open spec fn ciphertext_part(c: Seq<u8>) -> Seq<u8> {
    c.take(c.len() - TAG_LEN)
}

/// The tag part of a combined buffer: its last `TAG_LEN` bytes.
pub open spec fn tag_part(c: Seq<u8>) -> Seq<u8> {
    c.skip(c.len() - TAG_LEN)
}

/// Splits a combined buffer into ciphertext and tag, or `None` when it is
/// shorter than a tag.
pub fn split(c: &[u8]) -> (r: Option<(&[u8], &[u8])>)
    ensures
        c@.len() < TAG_LEN <==> r is None,
        r matches Some((ct, tag)) ==> ct@ == ciphertext_part(c@) && tag@ == tag_part(c@)
            && tag@.len() == TAG_LEN && ct@ + tag@ == c@,
{
    let n = c.len();
    if n < TAG_LEN {
        return None;
    }
    let ct = slice_subrange(c, 0, n - TAG_LEN);
    let tag = slice_subrange(c, n - TAG_LEN, n);
    assert(ct@ + tag@ =~= c@);
    Some((ct, tag))
}

/// Splitting the concatenation of a ciphertext and a tag gives back both.
pub proof fn lemma_split_combine(ct: Seq<u8>, tag: Seq<u8>)
    requires
        tag.len() == TAG_LEN,
    ensures
        ciphertext_part(ct + tag) == ct,
        tag_part(ct + tag) == tag,
{
    assert(ciphertext_part(ct + tag) =~= ct);
    assert(tag_part(ct + tag) =~= tag);
}

} // verus!

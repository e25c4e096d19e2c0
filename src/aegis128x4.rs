//! AEGIS-128X4 authenticated encryption.
//!
//! A (key, nonce) pair must never be used to encrypt two different messages;
//! choosing nonces is the caller's obligation.
use crate::adapter::{ciphertext_part, combine, lemma_split_combine, split, tag_part};
use crate::{result_bytes, Error};
use aegis::aegis128x4::Aegis128X4;
use vstd::prelude::*;

verus! {

/// Key length in bytes.
pub const KEY_LEN: usize = 16;
/// Tag length in bytes.
pub const TAG_LEN: usize = 16;
/// Nonce length in bytes.
pub const NONCE_LEN: usize = 16;

/// Key type (16 bytes).
pub type Key = [u8; KEY_LEN];
/// Tag type (16 bytes).
pub type Tag = [u8; TAG_LEN];
/// Nonce type (16 bytes).
pub type Nonce = [u8; NONCE_LEN];

/// The ciphertext of `m` followed by its 16-byte tag, under associated data
/// `ad`, key `key` and nonce `nonce`.
pub uninterp spec fn aegis128x4_seal(m: Seq<u8>, ad: Seq<u8>, key: Seq<u8>, nonce: Seq<u8>) -> Seq<u8>;

/// The plaintext that ciphertext `c` with tag `tag` authenticates to, or
/// `None` when the tag does not verify.
pub uninterp spec fn aegis128x4_open(
    c: Seq<u8>,
    tag: Seq<u8>,
    ad: Seq<u8>,
    key: Seq<u8>,
    nonce: Seq<u8>,
) -> Option<Seq<u8>>;

/// Relies on `aegis::aegis128x4::Aegis128X4::<16>::encrypt`: the ciphertext is as
/// long as the message, and the tag has 16 bytes.
#[verifier::external_body]
fn seal_detached(msg: &[u8], ad: &[u8], key: &Key, nonce: &Nonce) -> (r: (Vec<u8>, Tag))
    ensures
        r.0@.len() == msg@.len(),
        r.0@ + r.1@ == aegis128x4_seal(msg@, ad@, key@, nonce@),
{
    Aegis128X4::<16>::new(key, nonce).encrypt(msg, ad)
}

/// Relies on `aegis::aegis128x4::Aegis128X4::<16>::decrypt`: it recomputes the tag
/// of `c` and, when it matches, returns the plaintext, which is as long as
/// `c` and encrypts back to exactly `c` and `tag` (decryption is
/// deterministic and the recomputed tag must equal `tag`); the plaintext of
/// a message encrypted under the same associated data,
/// key and nonce is that message.
#[verifier::external_body]
fn open_detached(c: &[u8], tag: &[u8], ad: &[u8], key: &Key, nonce: &Nonce) -> (r: Option<Vec<u8>>)
    requires
        tag@.len() == TAG_LEN,
    ensures
        r is Some ==> aegis128x4_open(c@, tag@, ad@, key@, nonce@) == Some(r->0@),
        r is Some ==> r->0@.len() == c@.len(),
        r is None ==> aegis128x4_open(c@, tag@, ad@, key@, nonce@) is None,
        r is Some ==> aegis128x4_seal(r->0@, ad@, key@, nonce@) == c@ + tag@,
        forall|m: Seq<u8>|
            #[trigger] aegis128x4_seal(m, ad@, key@, nonce@) == c@ + tag@ ==> r is Some && r->0@ == m,
{
    let tag: &Tag = tag.try_into().expect("a tag has 16 bytes");
    Aegis128X4::<16>::new(key, nonce).decrypt(c, tag, ad).ok()
}

/// What `decrypt_detached` returns for ciphertext `c` and tag `tag`.
pub open spec fn decrypt_detached_result(
    c: Seq<u8>,
    tag: Seq<u8>,
    ad: Seq<u8>,
    key: Seq<u8>,
    nonce: Seq<u8>,
) -> Result<Seq<u8>, Error> {
    match aegis128x4_open(c, tag, ad, key, nonce) {
        Some(p) => Ok(p),
        None => Err(Error::VerificationFailed),
    }
}

/// What `decrypt` returns for the combined buffer `c` (ciphertext then tag).
pub open spec fn decrypt_result(c: Seq<u8>, ad: Seq<u8>, key: Seq<u8>, nonce: Seq<u8>) -> Result<
    Seq<u8>,
    Error,
> {
    if c.len() < TAG_LEN {
        Err(Error::VerificationFailed)
    } else {
        decrypt_detached_result(ciphertext_part(c), tag_part(c), ad, key, nonce)
    }
}

/// Encrypts `msg`, authenticating it together with `ad`; returns the
/// ciphertext and the tag separately.
pub fn encrypt_detached(msg: &[u8], ad: &[u8], key: &Key, nonce: Nonce) -> (r: (Vec<u8>, Tag))
    ensures
        r.0@.len() == msg@.len(),
        r.0@ + r.1@ == aegis128x4_seal(msg@, ad@, key@, nonce@),
{
    seal_detached(msg, ad, key, &nonce)
}

/// Encrypts `msg`, authenticating it together with `ad`; returns the
/// ciphertext followed by the tag.
pub fn encrypt(msg: &[u8], ad: &[u8], key: &Key, nonce: Nonce) -> (r: Vec<u8>)
    requires
        msg@.len() + TAG_LEN <= usize::MAX,
    ensures
        r@ == aegis128x4_seal(msg@, ad@, key@, nonce@),
        r@.len() == msg@.len() + TAG_LEN,
{
    let (ciphertext, tag) = encrypt_detached(msg, ad, key, nonce);
    combine(ciphertext, &tag)
}

/// Verifies `tag` over `ciphertext` and `ad` and decrypts; no plaintext is
/// returned unless the tag verifies, and a returned plaintext is as long as
/// the ciphertext and encrypts back to exactly `ciphertext` and `tag`.
pub fn decrypt_detached(ciphertext: &[u8], tag: &Tag, ad: &[u8], key: &Key, nonce: Nonce) -> (r:
    Result<Vec<u8>, Error>)
    ensures
        result_bytes(r) == decrypt_detached_result(ciphertext@, tag@, ad@, key@, nonce@),
        r is Ok ==> r->Ok_0@.len() == ciphertext@.len(),
        r is Ok ==> aegis128x4_seal(r->Ok_0@, ad@, key@, nonce@) == ciphertext@ + tag@,
        forall|m: Seq<u8>|
            #[trigger] aegis128x4_seal(m, ad@, key@, nonce@) == ciphertext@ + tag@
                ==> r is Ok && r->Ok_0@ == m,
{
    open_detached(ciphertext, tag.as_slice(), ad, key, &nonce).ok_or(Error::VerificationFailed)
}

/// Splits `ciphertext_and_tag` into ciphertext and trailing tag, verifies and
/// decrypts; a buffer shorter than a tag fails at once.
pub fn decrypt(ciphertext_and_tag: &[u8], ad: &[u8], key: &Key, nonce: Nonce) -> (r: Result<
    Vec<u8>,
    Error,
>)
    ensures
        result_bytes(r) == decrypt_result(ciphertext_and_tag@, ad@, key@, nonce@),
        r is Ok ==> r->Ok_0@.len() == ciphertext_and_tag@.len() - TAG_LEN,
        r is Ok ==> aegis128x4_seal(r->Ok_0@, ad@, key@, nonce@) == ciphertext_and_tag@,
        ciphertext_and_tag@.len() < TAG_LEN ==> r == Err::<Vec<u8>, Error>(Error::VerificationFailed),
        forall|m: Seq<u8>|
            #[trigger] aegis128x4_seal(m, ad@, key@, nonce@) == ciphertext_and_tag@
                && ciphertext_and_tag@.len() == m.len() + TAG_LEN ==> r is Ok && r->Ok_0@ == m,
{
    match split(ciphertext_and_tag) {
        None => Err(Error::VerificationFailed),
        Some((ciphertext, tag)) => {
            open_detached(ciphertext, tag, ad, key, &nonce).ok_or(Error::VerificationFailed)
        },
    }
}

/// Decrypting a combined buffer is decrypting its ciphertext part with its
/// tag part: for every ciphertext `c` and tag `tag`,
/// `decrypt(c ‖ tag)` and `decrypt_detached(c, tag)` give the same result.
pub proof fn lemma_combined_matches_detached(
    c: Seq<u8>,
    tag: Seq<u8>,
    ad: Seq<u8>,
    key: Seq<u8>,
    nonce: Seq<u8>,
)
    requires
        tag.len() == TAG_LEN,
    ensures
        decrypt_result(c + tag, ad, key, nonce) == decrypt_detached_result(c, tag, ad, key, nonce),
{
    lemma_split_combine(c, tag);
}

} // verus!

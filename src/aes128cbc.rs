//! AES-128 in CBC mode with PKCS#7 padding: unauthenticated block encryption.
//!
//! Decryption failure here means malformed or short input, not forged data.
//! An IV must never be reused with the same key; choosing IVs is the
//! caller's obligation.
use crate::block::{padded_len, BLOCK_LEN};
use crate::{result_bytes, Error};
use aes::cipher::block_padding::Pkcs7;
use aes::cipher::generic_array::GenericArray;
use aes::cipher::{BlockDecryptMut, BlockEncryptMut, KeyIvInit};
use aes::Aes128;
use vstd::prelude::*;

verus! {

/// Key length in bytes.
pub const KEY_LEN: usize = 16;
/// Block length in bytes (not a MAC tag: this mode has none).
pub const TAG_LEN: usize = 16;
/// IV length in bytes.
pub const IV_LEN: usize = 16;

/// Key type (16 bytes).
pub type Key = [u8; KEY_LEN];
/// Block type (16 bytes).
pub type Tag = [u8; TAG_LEN];
/// IV type (16 bytes).
pub type IV = [u8; IV_LEN];

/// The AES-128-CBC ciphertext of `m`, padded with PKCS#7, under `key` and `iv`.
pub uninterp spec fn aes128cbc_seal(m: Seq<u8>, key: Seq<u8>, iv: Seq<u8>) -> Seq<u8>;

/// The message that ciphertext `c` decrypts and unpads to under `key` and
/// `iv`, or `None` when its length or its padding is malformed.
pub uninterp spec fn aes128cbc_open(c: Seq<u8>, key: Seq<u8>, iv: Seq<u8>) -> Option<Seq<u8>>;

/// Relies on `BlockEncryptMut::encrypt_padded_vec_mut::<Pkcs7>` of
/// `cbc::Encryptor<Aes128>`: PKCS#7 appends 1 to 16 bytes, so the ciphertext
/// is the message length rounded up to the next multiple of 16 above it.
#[verifier::external_body]
fn seal(msg: &[u8], key: &Key, iv: &IV) -> (r: Vec<u8>)
    ensures
        r@ == aes128cbc_seal(msg@, key@, iv@),
        r@.len() == padded_len(msg@.len()),
{
    cbc::Encryptor::<Aes128>::new(GenericArray::from_slice(key), GenericArray::from_slice(iv))
        .encrypt_padded_vec_mut::<Pkcs7>(msg)
}

/// Relies on `BlockDecryptMut::decrypt_padded_vec_mut::<Pkcs7>` of
/// `cbc::Decryptor<Aes128>`: it fails on a length that is not a positive
/// multiple of 16 or on malformed padding (PKCS#7 unpadding is strict, so a
/// plaintext it returns pads and encrypts back to exactly `c`), removes at
/// least one padding byte otherwise, and gives back the message of a ciphertext that
/// `encrypt_padded_vec_mut` made under the same key and IV.
#[verifier::external_body]
fn open(c: &[u8], key: &Key, iv: &IV) -> (r: Option<Vec<u8>>)
    ensures
        r is Some ==> aes128cbc_open(c@, key@, iv@) == Some(r->0@),
        r is Some ==> r->0@.len() < c@.len(),
        r is None ==> aes128cbc_open(c@, key@, iv@) is None,
        r is Some ==> aes128cbc_seal(r->0@, key@, iv@) == c@,
        forall|m: Seq<u8>| #[trigger] aes128cbc_seal(m, key@, iv@) == c@ ==> r is Some && r->0@ == m,
{
    cbc::Decryptor::<Aes128>::new(GenericArray::from_slice(key), GenericArray::from_slice(iv))
        .decrypt_padded_vec_mut::<Pkcs7>(c)
        .ok()
}

/// What `decrypt` returns for ciphertext `c`.
pub open spec fn decrypt_result(c: Seq<u8>, key: Seq<u8>, iv: Seq<u8>) -> Result<Seq<u8>, Error> {
    if c.len() == 0 {
        Err(Error::VerificationFailed)
    } else {
        match aes128cbc_open(c, key, iv) {
            Some(m) => Ok(m),
            None => Err(Error::VerificationFailed),
        }
    }
}

/// Pads and encrypts `msg`; the ciphertext length is `(msg.len() + 16) & !15`,
/// one full block even for an empty message.
pub fn encrypt(msg: &[u8], key: &Key, iv: IV) -> (r: Vec<u8>)
    requires
        msg@.len() + BLOCK_LEN <= usize::MAX,
    ensures
        r@ == aes128cbc_seal(msg@, key@, iv@),
        r@.len() == padded_len(msg@.len()),
{
    seal(msg, key, &iv)
}

/// Decrypts and unpads `ciphertext`; an empty ciphertext fails at once. The
/// plaintext is shorter than the ciphertext and encrypts back to exactly it,
/// and the ciphertext of a message decrypts to that message.
pub fn decrypt(ciphertext: &[u8], key: &Key, iv: IV) -> (r: Result<Vec<u8>, Error>)
    ensures
        result_bytes(r) == decrypt_result(ciphertext@, key@, iv@),
        r is Ok ==> r->Ok_0@.len() <= ciphertext@.len() - 1,
        r is Ok ==> aes128cbc_seal(r->Ok_0@, key@, iv@) == ciphertext@,
        forall|m: Seq<u8>|
            #[trigger] aes128cbc_seal(m, key@, iv@) == ciphertext@ && ciphertext@.len() > 0
                ==> r is Ok && r->Ok_0@ == m,
{
    if ciphertext.len() == 0 {
        return Err(Error::VerificationFailed);
    }
    match open(ciphertext, key, &iv) {
        Some(m) => Ok(m),
        None => Err(Error::VerificationFailed),
    }
}

} // verus!

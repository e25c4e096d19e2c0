//! AES-256 in counter mode: a stream cipher, unauthenticated.
//!
//! A (key, IV) pair must never be used to encrypt two different messages;
//! choosing IVs is the caller's obligation.
use aes::cipher::generic_array::GenericArray;
use aes::cipher::{KeyIvInit, StreamCipher};
use aes::Aes256;
use ctr::Ctr128BE;
use vstd::prelude::*;

verus! {

/// Key length in bytes.
pub const KEY_LEN: usize = 32;
/// IV length in bytes.
pub const IV_LEN: usize = 16;

/// Key type (32 bytes).
pub type Key = [u8; KEY_LEN];
/// IV type (16 bytes).
pub type IV = [u8; IV_LEN];

/// `data` XORed with the AES-256-CTR keystream of `key` and `iv`.
pub uninterp spec fn aes256ctr_apply(data: Seq<u8>, key: Seq<u8>, iv: Seq<u8>) -> Seq<u8>;

/// Relies on `StreamCipher::apply_keystream` of `ctr::Ctr128BE<Aes256>`: it
/// XORs the data with a keystream fixed by the key and IV, so the output is
/// as long as the input and applying it to an output gives its input back.
/// The 128-bit counter wraps, so no length makes it panic.
#[verifier::external_body]
fn apply_keystream(data: &[u8], key: &Key, iv: &IV) -> (r: Vec<u8>)
    ensures
        r@ == aes256ctr_apply(data@, key@, iv@),
        r@.len() == data@.len(),
        forall|p: Seq<u8>| #[trigger] aes256ctr_apply(p, key@, iv@) == data@ ==> r@ == p,
{
    let mut buf = data.to_vec();
    let mut cipher = Ctr128BE::<Aes256>::new(GenericArray::from_slice(key), GenericArray::from_slice(iv));
    cipher.apply_keystream(&mut buf);
    buf
}

/// Encrypts `msg`; the ciphertext is exactly as long as the message, and
/// encrypting a ciphertext gives back its message.
pub fn encrypt(msg: &[u8], key: &Key, iv: IV) -> (r: Vec<u8>)
    ensures
        r@ == aes256ctr_apply(msg@, key@, iv@),
        r@.len() == msg@.len(),
        forall|m: Seq<u8>| #[trigger] aes256ctr_apply(m, key@, iv@) == msg@ ==> r@ == m,
{
    apply_keystream(msg, key, &iv)
}

/// Decrypts `ciphertext`, which is the same operation as encrypting it; the
/// ciphertext of a message decrypts to that message.
pub fn decrypt(ciphertext: &[u8], key: &Key, iv: IV) -> (r: Vec<u8>)
    ensures
        r@ == aes256ctr_apply(ciphertext@, key@, iv@),
        r@.len() == ciphertext@.len(),
        forall|m: Seq<u8>| #[trigger] aes256ctr_apply(m, key@, iv@) == ciphertext@ ==> r@ == m,
{
    encrypt(ciphertext, key, iv)
}

} // verus!

//! CMAC with AES-128: a message authentication code.
use aes::Aes128;
use cmac::digest::generic_array::GenericArray;
use cmac::{Cmac, Mac};
use vstd::prelude::*;

verus! {

/// Key length in bytes.
pub const KEY_LEN: usize = 16;
/// Tag length in bytes.
pub const TAG_LEN: usize = 16;

/// Key type (16 bytes).
pub type Key = [u8; KEY_LEN];
/// Tag type (16 bytes).
pub type Tag = [u8; TAG_LEN];

/// The CMAC-AES-128 tag of `m` under `key`.
pub uninterp spec fn cmac_aes128_of(m: Seq<u8>, key: Seq<u8>) -> Seq<u8>;

/// Relies on `cmac::Cmac<Aes128>`: `Mac::new`, one `Mac::update` with the
/// whole message, then `Mac::finalize`, which gives the 16-byte tag.
#[verifier::external_body]
fn cmac_tag(msg: &[u8], key: &Key) -> (r: Tag)
    ensures
        r@ == cmac_aes128_of(msg@, key@),
{
    let mut state = <Cmac<Aes128> as Mac>::new(GenericArray::from_slice(key));
    Mac::update(&mut state, msg);
    state.finalize().into_bytes().into()
}

/// Computes the authentication tag of `msg` under `key`.
pub fn mac(msg: &[u8], key: &Key) -> (r: Tag)
    ensures
        r@ == cmac_aes128_of(msg@, key@),
{
    cmac_tag(msg, key)
}

} // verus!

//! AEAD, stream-cipher and MAC primitives behind one calling convention:
//! fixed-size keys, nonces and tags, exact output sizes, and a single
//! verification-failure error for every decryption path.
//!
//! The cryptographic core of each algorithm is supplied by the RustCrypto
//! crates (AES modes and CMAC) and by the `aegis` crate (the AEGIS family);
//! this crate sizes the buffers, frames ciphertext and tag, and maps every
//! failure to [`Error::VerificationFailed`].
use vstd::prelude::*;

pub mod adapter;
pub mod block;

pub mod aegis128l;
pub mod aegis128x2;
pub mod aegis128x4;
pub mod aegis256;
pub mod aegis256x2;
pub mod aegis256x4;
pub mod aes128cbc;
pub mod aes128ctr;
pub mod aes128gcm;
pub mod aes128ocb;
pub mod aes256cbc;
pub mod aes256ctr;
pub mod aes256gcm;
pub mod aes256ocb;
pub mod cmac_aes128;

verus! {

/// Error returned when decryption or verification fails.
///
/// Tag mismatch, bad padding and malformed input all map to this one
/// outcome, so that a caller cannot tell the causes apart.
#[derive(Debug, Copy, Clone, PartialEq, Eq, Structural)]
pub enum Error {
    /// Ciphertext verification failed.
    VerificationFailed,
}

impl Error {
    /// Human-readable description of the error.
    pub fn message(&self) -> (r: &'static str)
        ensures
            r@ == "Verification failed"@,
    {
        match self {
            Error::VerificationFailed => "Verification failed",
        }
    }
}

/// The contents of a decryption result: the plaintext bytes or the error.
pub open spec fn result_bytes(r: Result<Vec<u8>, Error>) -> Result<Seq<u8>, Error> {
    match r {
        Ok(v) => Ok(v@),
        Err(e) => Err(e),
    }
}

} // verus!

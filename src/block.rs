//! Output sizing for the padded block modes.
use vstd::prelude::*;

verus! {

/// Block length of AES in bytes.
pub const BLOCK_LEN: usize = 16;

/// Length of the padded ciphertext of an `n`-byte message: the next multiple
/// of the block length strictly above `n`, so that a full block of padding is
/// added when `n` is already a multiple.
pub open spec fn padded_len(n: nat) -> nat {
    (n / 16 + 1) * 16
}

/// Computes `(msg_len + 16) & !15`, the padded ciphertext length of a
/// `msg_len`-byte message.
pub fn ciphertext_len(msg_len: usize) -> (r: usize)
    requires
        msg_len + BLOCK_LEN <= usize::MAX,
    ensures
        r == padded_len(msg_len as nat),
        r > msg_len,
        r % 16 == 0,
{
    let s: usize = msg_len + BLOCK_LEN;
    let r: usize = s & !15usize;
    assert(s & !15usize == s - s % 16) by (bit_vector);
    assert(s - s % 16 == (msg_len as nat / 16 + 1) * 16) by (nonlinear_arith)
        requires
            s == msg_len + 16,
    ;
    r
}

} // verus!

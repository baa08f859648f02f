use vstd::prelude::*;
use crate::digits::{decimal, decimal_string, digit_char, digit_str};

verus! {

/// Bytes in one mebibyte.
pub const MIB: u64 = 1048576;

/// The largest content, in bytes, that is rendered (15 MiB).
pub const SOFT_LIMIT_BYTES: u64 = 15 * 1048576;

/// The largest request body, in bytes, that the transport accepts (16 MiB).
pub const HARD_LIMIT_BYTES: u64 = 16 * 1048576;

/// Why content was refused.
#[derive(Debug, Clone, Copy, PartialEq, Eq)]
pub enum ValidationError {
    /// The content is over the soft limit; `size` is its length in bytes.
    TooLarge { size: u64 },
}

/// Accepts content of `len` bytes up to the soft limit, refuses longer content.
pub fn validate_size(len: u64) -> (r: Result<(), ValidationError>)
    ensures
        r is Ok <==> len <= SOFT_LIMIT_BYTES,
        r is Err ==> r == Err::<(), ValidationError>(ValidationError::TooLarge { size: len }),
{
    if len > SOFT_LIMIT_BYTES {
        Err(ValidationError::TooLarge { size: len })
    } else {
        Ok(())
    }
}

/// `len` bytes in tenths of a mebibyte, rounded to the nearest tenth, a tie going
/// to the even tenth.
pub open spec fn mib_tenths(len: nat) -> nat {
    let q = (len * 10) / (MIB as nat);
    let rem = (len * 10) % (MIB as nat);
    if rem > MIB / 2 || (rem == MIB / 2 && q % 2 == 1) {
        q + 1
    } else {
        q
    }
}

/// `len` bytes in mebibytes with one decimal, such as `15.3`.
pub open spec fn mib_text(len: nat) -> Seq<char> {
    decimal(mib_tenths(len) / 10) + seq!['.', digit_char(mib_tenths(len) % 10)]
}

/// The size of `len` bytes in tenths of a mebibyte, rounded as `mib_tenths` says.
pub fn size_in_mib_tenths(len: u64) -> (r: u64)
    ensures
        r as nat == mib_tenths(len as nat),
{
    let scaled: u128 = (len as u128) * 10;
    let q: u128 = scaled / (MIB as u128);
    let rem: u128 = scaled % (MIB as u128);
    let half: u128 = (MIB / 2) as u128;
    let t: u128 = if rem > half || (rem == half && q % 2 == 1) {
        q + 1
    } else {
        q
    };
    assert(q <= len as u128) by (nonlinear_arith)
        requires
            q == scaled / (MIB as u128),
            scaled == (len as u128) * 10,
    ;
    t as u64
}

/// The size of `len` bytes in mebibytes with one decimal.
pub fn size_in_mib_text(len: u64) -> (r: String)
    ensures
        r@ == mib_text(len as nat),
{
    let t: u64 = size_in_mib_tenths(len);
    let mut s = decimal_string(t / 10);
    s.append(".");
    s.append(digit_str(t % 10));
    proof {
        reveal_strlit(".");
    }
    assert(s@ =~= mib_text(len as nat));
    s
}

} // verus!

verus! {

/// The reported size is the byte count in mebibytes to the nearest tenth: it is
/// off by at most half a tenth of a mebibyte.
pub proof fn lemma_mib_tenths_nearest(len: nat)
    ensures
        mib_tenths(len) * MIB <= len * 10 + MIB / 2,
        len * 10 <= mib_tenths(len) * MIB + MIB / 2,
{
    let scaled = len * 10;
    let q = scaled / (MIB as nat);
    let rem = scaled % (MIB as nat);
    assert(scaled == q * MIB + rem && rem < MIB) by (nonlinear_arith)
        requires
            q == scaled / (MIB as nat),
            rem == scaled % (MIB as nat),
            MIB == 1048576,
    ;
    if rem > MIB / 2 || (rem == MIB / 2 && q % 2 == 1) {
        assert((q + 1) * MIB == q * MIB + MIB) by (nonlinear_arith);
    }
}

} // verus!

//! The verified core of the two accessor operations.
//!
//! Both target kinds — a filesystem path and an open file handle — drive the
//! same native flag primitive. This module holds everything around that call
//! that is pure: marshaling the target and the request, and interpreting the
//! primitive's outcome as a validated flag set or a typed error. The caller
//! performs the native call itself and hands its raw outcome back in.

use vstd::prelude::*;

use crate::error::FlagsError;
use crate::flags::{valid_bits, spec_from_raw_bits, Flags};

verus! {

/// A path is representable for the native primitive when none of its bytes
/// is NUL, the primitive's string terminator.
pub open spec fn representable(bytes: Seq<u8>) -> bool {
    forall|i: int| 0 <= i < bytes.len() ==> bytes[i] != 0u8
}

/// Marshal a path's bytes into the NUL-terminated form the native primitive
/// takes. A path holding a NUL byte is not representable and is rejected
/// with `InvalidInput` — before any native call.
pub fn marshal_path(bytes: &[u8]) -> (r: Result<Vec<u8>, FlagsError>)
    ensures
        representable(bytes@) ==> (r matches Ok(b) && b@ == bytes@.push(0u8)),
        !representable(bytes@) ==> r == Err::<Vec<u8>, FlagsError>(FlagsError::InvalidInput),
{
    let n = bytes.len();
    let mut out: Vec<u8> = Vec::new();
    let mut i: usize = 0;
    while i < n
        invariant
            i <= n,
            n == bytes@.len(),
            out@ == bytes@.subrange(0, i as int),
            forall|j: int| 0 <= j < i ==> bytes@[j] != 0u8,
        decreases n - i,
    {
        let byte = bytes[i];
        if byte == 0 {
            return Err(FlagsError::InvalidInput);
        }
        out.push(byte);
        i += 1;
    }
    assert(out@ == bytes@);
    out.push(0);
    Ok(out)
}

/// The raw argument handed to the native flag-update primitive for `f`:
/// `f`'s bits, widened to the primitive's 64-bit argument width.
pub open spec fn spec_write_request(f: Flags) -> u64 {
    f@ as u64
}

/// Widen a flag set to the native flag-update primitive's argument.
pub fn write_request(f: Flags) -> (r: u64)
    ensures
        r == spec_write_request(f),
{
    f.to_raw_bits() as u64
}

/// What the native store holds after a successful flag update: exactly the
/// written request. Nothing of the previous contents survives — the update
/// is an absolute replacement, not an incremental edit.
pub open spec fn spec_stored_after_write(prev: u64, f: Flags) -> u64 {
    spec_write_request(f)
}

/// What a read yields from the native flag-query primitive's outcome:
/// with a zero status, the raw value narrowed to the logical 32-bit flag
/// width and passed through the validation gate; with a nonzero status, the
/// platform's last-error code, surfaced verbatim.
pub open spec fn spec_read_result(status: i32, raw: u64, os_code: i32) -> Result<
    Flags,
    FlagsError,
> {
    if status == 0 {
        spec_from_raw_bits(raw as u32)
    } else {
        Err(FlagsError::Os(os_code))
    }
}

/// Interpret the native flag-query primitive's outcome: its status code, its
/// 64-bit output value, and the platform's last-error code as of the call.
pub fn read_outcome(status: i32, raw: u64, os_code: i32) -> (r: Result<Flags, FlagsError>)
    ensures
        r == spec_read_result(status, raw, os_code),
        status == 0 && valid_bits(raw as u32) ==> (r matches Ok(f) && f@ == raw as u32 && f.wf()),
        status == 0 && !valid_bits(raw as u32) ==> r == Err::<Flags, FlagsError>(
            FlagsError::InvalidData,
        ),
        status != 0 ==> r == Err::<Flags, FlagsError>(FlagsError::Os(os_code)),
{
    if status == 0 {
        Flags::from_raw_bits(#[verifier::truncate] (raw as u32))
    } else {
        Err(FlagsError::Os(os_code))
    }
}

/// What a write yields from the native flag-update primitive's outcome:
/// success on a zero status, and the platform's last-error code otherwise.
pub open spec fn spec_write_result(status: i32, os_code: i32) -> Result<(), FlagsError> {
    if status == 0 {
        Ok(())
    } else {
        Err(FlagsError::Os(os_code))
    }
}

/// Interpret the native flag-update primitive's outcome.
pub fn write_outcome(status: i32, os_code: i32) -> (r: Result<(), FlagsError>)
    ensures
        r == spec_write_result(status, os_code),
{
    if status == 0 {
        Ok(())
    } else {
        Err(FlagsError::Os(os_code))
    }
}

/// Write/read consistency: both target kinds hand the native primitive the
/// same request for `f` and interpret outcomes with the same function, so a
/// read that sees the bits a successful write of `f` stored yields exactly
/// `f` — whichever kind wrote and whichever kind read.
pub proof fn lemma_write_read_consistency(f: Flags, os_code: i32)
    requires
        f.wf(),
    ensures
        spec_read_result(0, spec_write_request(f), os_code) == Ok::<Flags, FlagsError>(f),
{
    let b = f@;
    assert((b as u64) as u32 == b) by (bit_vector);
    crate::flags::lemma_round_trip(f);
}

/// Absolute replacement: after a successful write of `a` and then of `b`,
/// the native store holds exactly `b`'s request — no bit of `a` survives
/// unless also set in `b` — and a read then yields exactly `b`.
pub proof fn lemma_absolute_replacement(prev: u64, a: Flags, b: Flags, os_code: i32)
    requires
        b.wf(),
    ensures
        spec_stored_after_write(spec_stored_after_write(prev, a), b) == spec_write_request(b),
        spec_read_result(0, spec_stored_after_write(spec_stored_after_write(prev, a), b), os_code)
            == Ok::<Flags, FlagsError>(b),
{
    lemma_write_read_consistency(b, os_code);
}

} // verus!

//! The error taxonomy of the accessor operations.

use vstd::prelude::*;

verus! {

/// Why a flag operation failed.
///
/// - `InvalidInput`: the target path is not representable in the form the
///   native primitive takes; detected before any native call.
/// - `InvalidData`: the native primitive reported success but handed back a
///   bit pattern with bits outside the compiled catalog.
/// - `Os`: the native primitive returned a nonzero status; the field holds
///   the platform's last-error code, surfaced verbatim.
#[derive(Clone, Copy, Debug, PartialEq, Eq, Structural)]
pub enum FlagsError {
    InvalidInput,
    InvalidData,
    Os(i32),
}

} // verus!

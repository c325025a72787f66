//! Typed access to the extended attribute flags of ext2/ext3/ext4, btrfs,
//! xfs and f2fs files (the bits shown by `lsattr` and set by `chattr`).
//!
//! The crate provides the [`flags::Flags`] bitmask value type, a structured
//! error taxonomy, and the verified core of the two accessor operations:
//! marshaling a target for the native flag primitive and interpreting the
//! primitive's outcome as a validated flag set or a typed error.

pub mod accessor;
pub mod error;
pub mod flags;

pub use error::FlagsError;
pub use flags::Flags;

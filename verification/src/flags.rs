//! The flag set: a bitmask value type over the catalog of known attribute
//! flag bits, with a validated ingress gate and closed set algebra.

use vstd::prelude::*;

use crate::error::FlagsError;

verus! {

/// Secure deletion.
pub const SECRM: u32 = 0x00000001;
/// Undelete.
pub const UNRM: u32 = 0x00000002;
/// Compressed file.
pub const COMPR: u32 = 0x00000004;
/// Synchronous updates.
pub const SYNC: u32 = 0x00000008;
/// Immutable file.
pub const IMMUTABLE: u32 = 0x00000010;
/// Writes may only append.
pub const APPEND: u32 = 0x00000020;
/// Do not dump the file.
pub const NODUMP: u32 = 0x00000040;
/// Do not update the access time.
pub const NOATIME: u32 = 0x00000080;
/// Dirty compressed file.
pub const DIRTY: u32 = 0x00000100;
/// One or more compressed clusters.
pub const COMPRBLK: u32 = 0x00000200;
/// Do not compress.
pub const NOCOMPR: u32 = 0x00000400;
/// Encrypted file.
pub const ENCRYPT: u32 = 0x00000800;
/// Btree-format directory.
pub const BTREE: u32 = 0x00001000;
/// Hash-indexed directory; the same bit as `BTREE`.
pub const INDEX: u32 = 0x00001000;
/// AFS directory.
pub const IMAGIC: u32 = 0x00002000;
/// Journaled file data.
pub const JOURNAL_DATA: u32 = 0x00004000;
/// The file tail should not be merged.
pub const NOTAIL: u32 = 0x00008000;
/// Synchronous directory updates.
pub const DIRSYNC: u32 = 0x00010000;
/// Top of a directory hierarchy.
pub const TOPDIR: u32 = 0x00020000;
/// Huge file.
pub const HUGE_FILE: u32 = 0x00040000;
/// Extent-mapped inode.
pub const EXTENTS: u32 = 0x00080000;
/// Verity-protected inode.
pub const VERITY: u32 = 0x00100000;
/// Inode used for a large extended attribute.
pub const EA_INODE: u32 = 0x00200000;
/// Do not copy-on-write.
pub const NOCOW: u32 = 0x00800000;
/// Snapshot file.
pub const SNAPFILE: u32 = 0x01000000;
/// Inode is DAX.
pub const DAX: u32 = 0x02000000;
/// Snapshot being deleted.
pub const SNAPFILE_DELETED: u32 = 0x04000000;
/// Snapshot shrink has completed.
pub const SNAPFILE_SHRUNK: u32 = 0x08000000;
/// Inline data.
pub const INLINE_DATA: u32 = 0x10000000;
/// Children inherit the project identifier.
pub const PROJINHERIT: u32 = 0x20000000;
/// Case-insensitive directory lookups.
pub const CASEFOLD: u32 = 0x40000000;
/// Reserved for the ext2 library.
pub const RESERVED: u32 = 0x80000000;

/// The subset of catalog flags that user tools report.
pub const USER_VISIBLE: u32 = SECRM | UNRM | COMPR | SYNC | IMMUTABLE | APPEND | NODUMP | NOATIME
    | DIRTY | COMPRBLK | NOCOMPR | ENCRYPT | BTREE | JOURNAL_DATA | NOTAIL | DIRSYNC | TOPDIR
    | EXTENTS | VERITY | INLINE_DATA | PROJINHERIT | CASEFOLD;

/// The subset of catalog flags that user tools may change.
pub const USER_MODIFIABLE: u32 = SECRM | UNRM | COMPR | SYNC | IMMUTABLE | APPEND | NODUMP
    | NOATIME | JOURNAL_DATA | NOTAIL | DIRSYNC | TOPDIR | EXTENTS | PROJINHERIT | CASEFOLD;

/// Every bit of the compiled catalog: the union of all named attribute flags.
pub const KNOWN_BITS: u32 = SECRM | UNRM | COMPR | SYNC | IMMUTABLE | APPEND | NODUMP | NOATIME
    | DIRTY | COMPRBLK | NOCOMPR | ENCRYPT | BTREE | INDEX | IMAGIC | JOURNAL_DATA | NOTAIL
    | DIRSYNC | TOPDIR | HUGE_FILE | EXTENTS | VERITY | EA_INODE | NOCOW | SNAPFILE | DAX
    | SNAPFILE_DELETED | SNAPFILE_SHRUNK | INLINE_DATA | PROJINHERIT | CASEFOLD | RESERVED;

/// True of a raw value that holds no bit outside the compiled catalog.
pub open spec fn valid_bits(bits: u32) -> bool {
    bits & KNOWN_BITS == bits
}

/// A set of attribute flags: zero or more catalog bits, as a pure value.
///
/// The raw representation is hidden; its view (`f@`) is the raw `u32`.
/// Construction from raw bits goes through the validation gate
/// [`Flags::from_raw_bits`], and the set algebra is closed over well-formed
/// values, so a flag set obtained from this module holds catalog bits only.
#[derive(Clone, Copy, Debug, PartialEq, Eq, Structural)]
pub struct Flags {
    bits: u32,
}

impl View for Flags {
    type V = u32;

    closed spec fn view(&self) -> u32 {
        self.bits
    }
}

/// The flag set whose raw representation is `bits`.
pub closed spec fn spec_new(bits: u32) -> Flags {
    Flags { bits }
}

/// What [`Flags::from_raw_bits`] returns: the flag set over `bits` where no
/// bit lies outside the compiled catalog, and `InvalidData` otherwise.
pub open spec fn spec_from_raw_bits(bits: u32) -> Result<Flags, FlagsError> {
    if valid_bits(bits) {
        Ok(spec_new(bits))
    } else {
        Err(FlagsError::InvalidData)
    }
}

impl Flags {
    /// A well-formed flag set holds only bits of the compiled catalog.
    pub open spec fn wf(self) -> bool {
        valid_bits(self@)
    }

    /// The ingress validation gate: the flag set over `bits`, or
    /// `InvalidData` if any bit outside the compiled catalog is set.
    pub fn from_raw_bits(bits: u32) -> (r: Result<Flags, FlagsError>)
        ensures
            r == spec_from_raw_bits(bits),
            valid_bits(bits) ==> (r matches Ok(f) && f@ == bits && f.wf()),
            !valid_bits(bits) ==> r == Err::<Flags, FlagsError>(FlagsError::InvalidData),
    {
        if bits & KNOWN_BITS == bits {
            Ok(Flags { bits })
        } else {
            Err(FlagsError::InvalidData)
        }
    }

    /// The raw bit representation; total, the inverse of `from_raw_bits` on
    /// well-formed values.
    pub fn to_raw_bits(self) -> (r: u32)
        ensures
            r == self@,
    {
        self.bits
    }

    /// The empty flag set: no bits set.
    pub fn empty() -> (r: Flags)
        ensures
            r@ == 0u32,
            r.wf(),
    {
        proof {
            assert(0u32 & KNOWN_BITS == 0u32) by (bit_vector);
        }
        Flags { bits: 0 }
    }

    /// Whether no flag is set.
    pub fn is_empty(self) -> (r: bool)
        ensures
            r == (self@ == 0u32),
    {
        self.bits == 0
    }

    /// The union of two flag sets: every flag set in either.
    pub fn union(self, other: Flags) -> (r: Flags)
        ensures
            r@ == self@ | other@,
            self.wf() && other.wf() ==> r.wf(),
    {
        proof {
            let a = self@;
            let b = other@;
            assert(a & KNOWN_BITS == a && b & KNOWN_BITS == b ==> (a | b) & KNOWN_BITS == (a | b))
                by (bit_vector);
        }
        Flags { bits: self.bits | other.bits }
    }

    /// The intersection of two flag sets: every flag set in both.
    pub fn intersection(self, other: Flags) -> (r: Flags)
        ensures
            r@ == self@ & other@,
            self.wf() && other.wf() ==> r.wf(),
    {
        proof {
            let a = self@;
            let b = other@;
            assert(a & KNOWN_BITS == a && b & KNOWN_BITS == b ==> (a & b) & KNOWN_BITS == (a & b))
                by (bit_vector);
        }
        Flags { bits: self.bits & other.bits }
    }
}

impl Default for Flags {
    /// The default flag set is the empty set.
    fn default() -> (r: Flags)
        ensures
            r@ == 0u32,
            r.wf(),
    {
        Flags::empty()
    }
}

/// Round trip: rebuilding a well-formed flag set from its raw bits gives the
/// same set back.
pub proof fn lemma_round_trip(f: Flags)
    requires
        f.wf(),
    ensures
        spec_from_raw_bits(f@) == Ok::<Flags, FlagsError>(f),
{
}

} // verus!

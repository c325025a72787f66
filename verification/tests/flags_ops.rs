use e2p_fileflags::flags;
use e2p_fileflags::{Flags, FlagsError};

#[test]
fn empty_is_zero() {
    let e = Flags::empty();
    assert_eq!(e.to_raw_bits(), 0);
    assert!(e.is_empty());
}

#[test]
fn default_is_empty() {
    let d: Flags = Default::default();
    assert_eq!(d, Flags::empty());
    assert!(d.is_empty());
}

#[test]
fn round_trip_single_flags() {
    let raws: [u32; 6] = [
        flags::SECRM,
        flags::IMMUTABLE,
        flags::NOATIME,
        flags::NOCOW,
        flags::CASEFOLD,
        flags::RESERVED,
    ];
    for raw in raws {
        let f = Flags::from_raw_bits(raw).unwrap();
        assert_eq!(f.to_raw_bits(), raw);
        assert_eq!(Flags::from_raw_bits(f.to_raw_bits()), Ok(f));
    }
}

#[test]
fn round_trip_combined_flags() {
    let f = Flags::from_raw_bits(flags::NOCOW).unwrap().union(
        Flags::from_raw_bits(flags::NOATIME).unwrap(),
    );
    assert_eq!(f.to_raw_bits(), 0x0080_0080);
    assert_eq!(Flags::from_raw_bits(f.to_raw_bits()), Ok(f));
}

#[test]
fn invalid_bits_rejected() {
    // Bit 22 is outside the compiled catalog.
    assert_eq!(Flags::from_raw_bits(0x0040_0000), Err(FlagsError::InvalidData));
    // A single unknown bit poisons an otherwise known pattern.
    assert_eq!(
        Flags::from_raw_bits(0x0040_0000 | flags::NOATIME),
        Err(FlagsError::InvalidData)
    );
}

#[test]
fn whole_catalog_accepted() {
    let f = Flags::from_raw_bits(flags::KNOWN_BITS).unwrap();
    assert_eq!(f.to_raw_bits(), flags::KNOWN_BITS);
}

#[test]
fn union_and_intersection() {
    let nocow = Flags::from_raw_bits(flags::NOCOW).unwrap();
    let noatime = Flags::from_raw_bits(flags::NOATIME).unwrap();
    let both = nocow.union(noatime);
    assert_eq!(both.to_raw_bits(), flags::NOCOW | flags::NOATIME);
    assert_eq!(both.intersection(noatime), noatime);
    assert_eq!(nocow.intersection(noatime), Flags::empty());
    assert!(nocow.intersection(noatime).is_empty());
}

#[test]
fn constant_values() {
    assert_eq!(flags::SECRM, 0x0000_0001);
    assert_eq!(flags::UNRM, 0x0000_0002);
    assert_eq!(flags::COMPR, 0x0000_0004);
    assert_eq!(flags::SYNC, 0x0000_0008);
    assert_eq!(flags::IMMUTABLE, 0x0000_0010);
    assert_eq!(flags::APPEND, 0x0000_0020);
    assert_eq!(flags::NODUMP, 0x0000_0040);
    assert_eq!(flags::NOATIME, 0x0000_0080);
    assert_eq!(flags::DIRTY, 0x0000_0100);
    assert_eq!(flags::COMPRBLK, 0x0000_0200);
    assert_eq!(flags::NOCOMPR, 0x0000_0400);
    assert_eq!(flags::ENCRYPT, 0x0000_0800);
    assert_eq!(flags::BTREE, 0x0000_1000);
    assert_eq!(flags::INDEX, flags::BTREE);
    assert_eq!(flags::IMAGIC, 0x0000_2000);
    assert_eq!(flags::JOURNAL_DATA, 0x0000_4000);
    assert_eq!(flags::NOTAIL, 0x0000_8000);
    assert_eq!(flags::DIRSYNC, 0x0001_0000);
    assert_eq!(flags::TOPDIR, 0x0002_0000);
    assert_eq!(flags::HUGE_FILE, 0x0004_0000);
    assert_eq!(flags::EXTENTS, 0x0008_0000);
    assert_eq!(flags::VERITY, 0x0010_0000);
    assert_eq!(flags::EA_INODE, 0x0020_0000);
    assert_eq!(flags::NOCOW, 0x0080_0000);
    assert_eq!(flags::SNAPFILE, 0x0100_0000);
    assert_eq!(flags::DAX, 0x0200_0000);
    assert_eq!(flags::SNAPFILE_DELETED, 0x0400_0000);
    assert_eq!(flags::SNAPFILE_SHRUNK, 0x0800_0000);
    assert_eq!(flags::INLINE_DATA, 0x1000_0000);
    assert_eq!(flags::PROJINHERIT, 0x2000_0000);
    assert_eq!(flags::CASEFOLD, 0x4000_0000);
    assert_eq!(flags::RESERVED, 0x8000_0000);
    assert_eq!(flags::KNOWN_BITS, 0xFFBF_FFFF);
}

#[test]
fn user_subsets_lie_in_catalog() {
    assert_eq!(flags::USER_VISIBLE & flags::KNOWN_BITS, flags::USER_VISIBLE);
    assert_eq!(flags::USER_MODIFIABLE & flags::KNOWN_BITS, flags::USER_MODIFIABLE);
    // What may be modified may also be seen.
    assert_eq!(flags::USER_MODIFIABLE & flags::USER_VISIBLE, flags::USER_MODIFIABLE);
    assert!(Flags::from_raw_bits(flags::USER_VISIBLE).is_ok());
    assert!(Flags::from_raw_bits(flags::USER_MODIFIABLE).is_ok());
}

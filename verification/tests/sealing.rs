use memfd::sealing::{
    bitflags_to_seals, seals_to_bitflags, F_SEAL_ALL, F_SEAL_GROW, F_SEAL_SEAL, F_SEAL_SHRINK,
    F_SEAL_WRITE,
};
use memfd::{FileSeal, SealSet};
use rustix::fs::SealFlags;

const ALL: [FileSeal; 4] = [
    FileSeal::SealShrink,
    FileSeal::SealGrow,
    FileSeal::SealWrite,
    FileSeal::SealSeal,
];

fn subset(index: u32) -> SealSet {
    let mut set = SealSet::new();
    for (i, seal) in ALL.iter().enumerate() {
        if index & (1 << i) != 0 {
            set.insert(*seal);
        }
    }
    set
}

#[test]
fn seal_bits_are_the_kernel_constants() {
    assert_eq!(FileSeal::SealSeal.bitflags(), 0x0001);
    assert_eq!(FileSeal::SealShrink.bitflags(), 0x0002);
    assert_eq!(FileSeal::SealGrow.bitflags(), 0x0004);
    assert_eq!(FileSeal::SealWrite.bitflags(), 0x0008);
    assert_eq!(FileSeal::SealSeal.bitflags(), SealFlags::SEAL.bits());
    assert_eq!(FileSeal::SealShrink.bitflags(), SealFlags::SHRINK.bits());
    assert_eq!(FileSeal::SealGrow.bitflags(), SealFlags::GROW.bits());
    assert_eq!(FileSeal::SealWrite.bitflags(), SealFlags::WRITE.bits());
    assert_eq!(F_SEAL_SEAL, SealFlags::SEAL.bits());
    assert_eq!(F_SEAL_SHRINK, SealFlags::SHRINK.bits());
    assert_eq!(F_SEAL_GROW, SealFlags::GROW.bits());
    assert_eq!(F_SEAL_WRITE, SealFlags::WRITE.bits());
    assert_eq!(
        F_SEAL_ALL,
        (SealFlags::SEAL | SealFlags::SHRINK | SealFlags::GROW | SealFlags::WRITE).bits()
    );
}

#[test]
fn encode_is_the_or_of_the_bits() {
    assert_eq!(seals_to_bitflags(&SealSet::new()), 0);
    assert_eq!(
        seals_to_bitflags(&SealSet::from_slice(&[FileSeal::SealWrite])),
        0x8
    );
    assert_eq!(
        seals_to_bitflags(&SealSet::from_slice(&[
            FileSeal::SealWrite,
            FileSeal::SealShrink
        ])),
        0xa
    );
    assert_eq!(
        seals_to_bitflags(&SealSet::from_slice(&[
            FileSeal::SealGrow,
            FileSeal::SealSeal,
            FileSeal::SealGrow
        ])),
        0x5
    );
    assert_eq!(seals_to_bitflags(&SealSet::from_slice(&ALL)), 0xf);
}

#[test]
fn decode_reads_each_known_bit() {
    assert!(bitflags_to_seals(0).is_empty());
    assert_eq!(
        bitflags_to_seals(0x1),
        SealSet::from_slice(&[FileSeal::SealSeal])
    );
    assert_eq!(
        bitflags_to_seals(0x2),
        SealSet::from_slice(&[FileSeal::SealShrink])
    );
    assert_eq!(
        bitflags_to_seals(0x4),
        SealSet::from_slice(&[FileSeal::SealGrow])
    );
    assert_eq!(
        bitflags_to_seals(0x8),
        SealSet::from_slice(&[FileSeal::SealWrite])
    );
    assert_eq!(
        bitflags_to_seals(0x6),
        SealSet::from_slice(&[FileSeal::SealGrow, FileSeal::SealShrink])
    );
    assert_eq!(bitflags_to_seals(0xf), SealSet::from_slice(&ALL));
}

#[test]
fn decode_ignores_unknown_bits() {
    assert!(bitflags_to_seals(0x10).is_empty());
    assert!(bitflags_to_seals(0xffff_fff0).is_empty());
    assert_eq!(
        bitflags_to_seals(0x38),
        SealSet::from_slice(&[FileSeal::SealWrite])
    );
    assert_eq!(bitflags_to_seals(u32::MAX), SealSet::from_slice(&ALL));
}

#[test]
fn decode_of_encode_is_the_set() {
    for index in 0..16u32 {
        let set = subset(index);
        assert_eq!(bitflags_to_seals(seals_to_bitflags(&set)), set);
    }
}

#[test]
fn encode_of_decode_keeps_the_seal_bits() {
    for bits in [0u32, 1, 2, 3, 7, 8, 0xf, 0x10, 0x1f, 0x35, 0xdead_beef, u32::MAX] {
        assert_eq!(seals_to_bitflags(&bitflags_to_seals(bits)), bits & 0xf);
    }
}

#[test]
fn encode_of_a_union_is_the_or() {
    for a in 0..16u32 {
        for b in 0..16u32 {
            let mut both = subset(a);
            for seal in subset(b).to_vec() {
                both.insert(seal);
            }
            assert_eq!(
                seals_to_bitflags(&both),
                seals_to_bitflags(&subset(a)) | seals_to_bitflags(&subset(b))
            );
        }
    }
}

#[test]
fn distinct_subsets_have_distinct_bits() {
    for a in 0..16u32 {
        for b in 0..16u32 {
            assert_eq!(
                seals_to_bitflags(&subset(a)) == seals_to_bitflags(&subset(b)),
                a == b
            );
            assert_eq!(subset(a) == subset(b), a == b);
        }
    }
}

#[test]
fn set_has_no_order_and_no_duplicates() {
    let a = SealSet::from_slice(&[FileSeal::SealWrite, FileSeal::SealShrink]);
    let b = SealSet::from_slice(&[
        FileSeal::SealShrink,
        FileSeal::SealWrite,
        FileSeal::SealShrink,
    ]);
    assert_eq!(a, b);
    assert_eq!(a.len(), 2);
    assert_eq!(b.len(), 2);
    assert_eq!(
        b.to_vec(),
        vec![FileSeal::SealShrink, FileSeal::SealWrite]
    );
}

#[test]
fn set_insert_contains_len() {
    let mut set = SealSet::new();
    assert!(set.is_empty());
    assert_eq!(set.len(), 0);
    assert_eq!(set.to_vec(), Vec::<FileSeal>::new());
    for seal in ALL {
        assert!(!set.contains(seal));
    }

    assert_eq!(set.insert(FileSeal::SealGrow), true);
    assert_eq!(set.insert(FileSeal::SealGrow), false);
    assert!(set.contains(FileSeal::SealGrow));
    assert!(!set.contains(FileSeal::SealShrink));
    assert!(!set.is_empty());
    assert_eq!(set.len(), 1);

    assert_eq!(set.insert(FileSeal::SealSeal), true);
    assert_eq!(set.insert(FileSeal::SealShrink), true);
    assert_eq!(set.insert(FileSeal::SealWrite), true);
    assert_eq!(set.insert(FileSeal::SealWrite), false);
    assert_eq!(set.len(), 4);
    assert_eq!(
        set.to_vec(),
        vec![
            FileSeal::SealShrink,
            FileSeal::SealGrow,
            FileSeal::SealWrite,
            FileSeal::SealSeal
        ]
    );
    assert_eq!(SealSet::from_slice(&[]), SealSet::new());
}

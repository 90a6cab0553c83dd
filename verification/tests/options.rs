use memfd::memfd::{contains_nul, MFD_ALLOW_SEALING, MFD_CLOEXEC, MFD_HUGETLB, MFD_HUGE_SHIFT};
use memfd::{Error, HugetlbSize, MemfdOptions};
use rustix::fs::MemfdFlags;
use rustix::io::Errno;

const SIZES: [HugetlbSize; 10] = [
    HugetlbSize::Huge64KB,
    HugetlbSize::Huge512KB,
    HugetlbSize::Huge1MB,
    HugetlbSize::Huge2MB,
    HugetlbSize::Huge8MB,
    HugetlbSize::Huge16MB,
    HugetlbSize::Huge256MB,
    HugetlbSize::Huge1GB,
    HugetlbSize::Huge2GB,
    HugetlbSize::Huge16GB,
];

#[test]
fn error_send_sync() {
    fn assert_error<E: Send + Sync + std::fmt::Debug + 'static>() {}
    assert_error::<Error>();
}

#[test]
fn error_messages_and_sources() {
    let e = Error::NameEncoding;
    assert_eq!(e.message(), "the name of a memfd cannot hold a null byte");
    assert_eq!(e.source(), None);
    let e = Error::Create(Errno::INVAL);
    assert_eq!(e.message(), "cannot create a memfd");
    assert_eq!(e.source(), Some(&Errno::INVAL));
    let e = Error::AddSeals(Errno::PERM);
    assert_eq!(e.message(), "cannot add seals to the memfd");
    assert_eq!(e.source(), Some(&Errno::PERM));
    let e = Error::GetSeals(Errno::BADF);
    assert_eq!(e.message(), "cannot read seals for a memfd");
    assert_eq!(e.source(), Some(&Errno::BADF));
}

#[test]
fn flag_constants_are_the_kernel_constants() {
    assert_eq!(MFD_CLOEXEC, MemfdFlags::CLOEXEC.bits());
    assert_eq!(MFD_ALLOW_SEALING, MemfdFlags::ALLOW_SEALING.bits());
    assert_eq!(MFD_HUGETLB, MemfdFlags::HUGETLB.bits());
    assert_eq!(MFD_HUGE_SHIFT, 26);
}

#[test]
fn hugetlb_selectors_are_the_kernel_constants() {
    let expected = [
        MemfdFlags::HUGE_64KB,
        MemfdFlags::HUGE_512KB,
        MemfdFlags::HUGE_1MB,
        MemfdFlags::HUGE_2MB,
        MemfdFlags::HUGE_8MB,
        MemfdFlags::HUGE_16MB,
        MemfdFlags::HUGE_256MB,
        MemfdFlags::HUGE_1GB,
        MemfdFlags::HUGE_2GB,
        MemfdFlags::HUGE_16GB,
    ];
    for (size, flag) in SIZES.iter().zip(expected.iter()) {
        assert_eq!(size.bitflags(), flag.bits());
    }
    assert_eq!(HugetlbSize::Huge64KB.bitflags(), 16 << 26);
    assert_eq!(HugetlbSize::Huge2MB.bitflags(), 0x5400_0000);
    assert_eq!(HugetlbSize::Huge16GB.bitflags(), 0x8800_0000);
}

#[test]
fn hugetlb_selectors_are_distinct() {
    for (i, a) in SIZES.iter().enumerate() {
        for (j, b) in SIZES.iter().enumerate() {
            assert_eq!(a.bitflags() == b.bitflags(), i == j);
            assert_eq!(a == b, i == j);
        }
        assert_eq!(a.bitflags() & 0x03ff_ffff, 0);
    }
}

#[test]
fn default_options() {
    assert_eq!(MemfdOptions::new().bitflags(), 0);
    assert_eq!(MemfdOptions::default().bitflags(), 0);
    assert_eq!(
        MemfdOptions::default().bitflags(),
        MemfdFlags::empty().bits()
    );
    assert_eq!(
        MemfdOptions::new()
            .hugetlb(Some(HugetlbSize::Huge2MB))
            .bitflags(),
        0x5400_0004
    );
}

#[test]
fn options_compile_to_flags() {
    let base = MemfdOptions::new();
    assert_eq!(base.bitflags(), 0);
    assert_eq!(base.close_on_exec(false).bitflags(), 0);
    assert_eq!(base.allow_sealing(false).bitflags(), 0);
    assert_eq!(base.hugetlb(None).bitflags(), 0);
    assert_eq!(base.allow_sealing(true).bitflags(), 0x2);
    assert_eq!(base.close_on_exec(true).bitflags(), 0x1);
    assert_eq!(base.allow_sealing(true).close_on_exec(true).bitflags(), 0x3);
    assert_eq!(
        base.hugetlb(Some(HugetlbSize::Huge2MB)).bitflags(),
        0x5400_0004
    );
    assert_eq!(
        base.allow_sealing(true)
            .close_on_exec(true)
            .hugetlb(Some(HugetlbSize::Huge1GB))
            .bitflags(),
        0x7800_0007
    );
    assert_eq!(
        base.hugetlb(Some(HugetlbSize::Huge16GB)).bitflags(),
        (MemfdFlags::HUGETLB | MemfdFlags::HUGE_16GB).bits()
    );
}

#[test]
fn builder_steps_override_and_keep_the_rest() {
    let opts = MemfdOptions::new()
        .allow_sealing(true)
        .close_on_exec(true)
        .hugetlb(Some(HugetlbSize::Huge8MB));
    assert_eq!(opts.bitflags(), 0x5c00_0007);
    assert_eq!(opts.allow_sealing(false).bitflags(), 0x5c00_0005);
    assert_eq!(opts.close_on_exec(false).bitflags(), 0x5c00_0006);
    assert_eq!(opts.hugetlb(None).bitflags(), 0x3);
    assert_eq!(
        opts.hugetlb(Some(HugetlbSize::Huge64KB)).bitflags(),
        0x4000_0007
    );
    let copy = opts.clone();
    assert_eq!(copy.bitflags(), opts.bitflags());
}

#[test]
fn distinct_options_have_distinct_flags() {
    let mut seen: Vec<u32> = Vec::new();
    for sealing in [false, true] {
        for cloexec in [false, true] {
            let base = MemfdOptions::new()
                .allow_sealing(sealing)
                .close_on_exec(cloexec);
            seen.push(base.bitflags());
            for size in SIZES {
                seen.push(base.hugetlb(Some(size)).bitflags());
            }
        }
    }
    assert_eq!(seen.len(), 44);
    for (i, a) in seen.iter().enumerate() {
        for (j, b) in seen.iter().enumerate() {
            assert_eq!(a == b, i == j);
        }
    }
}

#[test]
fn null_bytes_are_found() {
    assert_eq!(contains_nul(""), false);
    assert_eq!(contains_nul("default"), false);
    assert_eq!(contains_nul("\0"), true);
    assert_eq!(contains_nul("a\0b"), true);
    assert_eq!(contains_nul("ab\0"), true);
    assert_eq!(contains_nul("\u{100}\u{1F980}0"), false);
}

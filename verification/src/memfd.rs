//! Creation options and the handle of an anonymous file.

use crate::errors::Error;
use crate::sealing::{bit_if, bitflags_to_seals, decode, seals_to_bitflags, FileSeal, SealSet};
use crate::sys;
use rustix::fd::OwnedFd;
use rustix::io::Errno;
use vstd::prelude::*;
use vstd::string::StringSliceAdditionalSpecFns;

verus! {

/// Kernel flag: close the descriptor when the process replaces its program.
pub const MFD_CLOEXEC: u32 = 0x0001;

/// Kernel flag: let seals be added to the file.
pub const MFD_ALLOW_SEALING: u32 = 0x0002;

/// Kernel flag: back the file with hugetlb pages.
pub const MFD_HUGETLB: u32 = 0x0004;

/// Position of the page-size selector in the flag word.
pub const MFD_HUGE_SHIFT: u32 = 26;

/// Page size for a hugetlb anonymous file.
#[derive(Copy, Clone, Debug, PartialEq, Eq, Structural)]
pub enum HugetlbSize {
    /// 64KB hugetlb page.
    Huge64KB,
    /// 512KB hugetlb page.
    Huge512KB,
    /// 1MB hugetlb page.
    Huge1MB,
    /// 2MB hugetlb page.
    Huge2MB,
    /// 8MB hugetlb page.
    Huge8MB,
    /// 16MB hugetlb page.
    Huge16MB,
    /// 256MB hugetlb page.
    Huge256MB,
    /// 1GB hugetlb page.
    Huge1GB,
    /// 2GB hugetlb page.
    Huge2GB,
    /// 16GB hugetlb page.
    Huge16GB,
}

impl HugetlbSize {
    /// The binary logarithm of the page size in bytes.
    pub open spec fn log2_bytes(self) -> u32 {
        match self {
            HugetlbSize::Huge64KB => 16,
            HugetlbSize::Huge512KB => 19,
            HugetlbSize::Huge1MB => 20,
            HugetlbSize::Huge2MB => 21,
            HugetlbSize::Huge8MB => 23,
            HugetlbSize::Huge16MB => 24,
            HugetlbSize::Huge256MB => 28,
            HugetlbSize::Huge1GB => 30,
            HugetlbSize::Huge2GB => 31,
            HugetlbSize::Huge16GB => 34,
        }
    }

    /// The kernel's selector of this page size: the logarithm of the size,
    /// in the six highest bits of the flag word.
    pub open spec fn bits(self) -> u32 {
        self.log2_bytes() << MFD_HUGE_SHIFT
    }

    /// Return the bit-wise flag value of this page size.
    pub fn bitflags(self) -> (r: u32)
        ensures
            r == self.bits(),
    {
        let r: u32 = match self {
            HugetlbSize::Huge64KB => 0x4000_0000,
            HugetlbSize::Huge512KB => 0x4c00_0000,
            HugetlbSize::Huge1MB => 0x5000_0000,
            HugetlbSize::Huge2MB => 0x5400_0000,
            HugetlbSize::Huge8MB => 0x5c00_0000,
            HugetlbSize::Huge16MB => 0x6000_0000,
            HugetlbSize::Huge256MB => 0x7000_0000,
            HugetlbSize::Huge1GB => 0x7800_0000,
            HugetlbSize::Huge2GB => 0x7c00_0000,
            HugetlbSize::Huge16GB => 0x8800_0000,
        };
        proof {
            lemma_selectors();
        }
        r
    }
}

/// The ten selectors, written out.
pub proof fn lemma_selectors()
    ensures
        HugetlbSize::Huge64KB.bits() == 0x4000_0000,
        HugetlbSize::Huge512KB.bits() == 0x4c00_0000,
        HugetlbSize::Huge1MB.bits() == 0x5000_0000,
        HugetlbSize::Huge2MB.bits() == 0x5400_0000,
        HugetlbSize::Huge8MB.bits() == 0x5c00_0000,
        HugetlbSize::Huge16MB.bits() == 0x6000_0000,
        HugetlbSize::Huge256MB.bits() == 0x7000_0000,
        HugetlbSize::Huge1GB.bits() == 0x7800_0000,
        HugetlbSize::Huge2GB.bits() == 0x7c00_0000,
        HugetlbSize::Huge16GB.bits() == 0x8800_0000,
{
    assert(16u32 << 26u32 == 0x4000_0000u32) by (bit_vector);
    assert(19u32 << 26u32 == 0x4c00_0000u32) by (bit_vector);
    assert(20u32 << 26u32 == 0x5000_0000u32) by (bit_vector);
    assert(21u32 << 26u32 == 0x5400_0000u32) by (bit_vector);
    assert(23u32 << 26u32 == 0x5c00_0000u32) by (bit_vector);
    assert(24u32 << 26u32 == 0x6000_0000u32) by (bit_vector);
    assert(28u32 << 26u32 == 0x7000_0000u32) by (bit_vector);
    assert(30u32 << 26u32 == 0x7800_0000u32) by (bit_vector);
    assert(31u32 << 26u32 == 0x7c00_0000u32) by (bit_vector);
    assert(34u32 << 26u32 == 0x8800_0000u32) by (bit_vector);
}

/// Whether the name holds a null byte. Such a name cannot be handed to the
/// kernel, which reads a name up to its first null byte.
pub open spec fn has_nul(name: &str) -> bool {
    name.spec_bytes().contains(0u8)
}

/// Whether the name holds a null byte.
pub fn contains_nul(name: &str) -> (r: bool)
    ensures
        r == has_nul(name),
{
    let bytes = name.as_bytes();
    let mut i: usize = 0;
    while i < bytes.len()
        invariant
            i <= bytes.len(),
            bytes@ == name.spec_bytes(),
            forall|j: int| 0 <= j < i ==> bytes@[j] != 0u8,
        decreases bytes.len() - i,
    {
        if bytes[i] == 0u8 {
            assert(name.spec_bytes()[i as int] == 0u8);
            return true;
        }
        i = i + 1;
    }
    false
}

/// A `Memfd` builder, providing advanced options and flags for specifying its behavior.
#[derive(Clone, Copy, Debug)]
pub struct MemfdOptions {
    allow_sealing: bool,
    cloexec: bool,
    hugetlb: Option<HugetlbSize>,
}

impl MemfdOptions {
    /// Whether seals may be added to a file created with these options.
    pub closed spec fn sealing_allowed(&self) -> bool {
        self.allow_sealing
    }

    /// Whether the descriptor of a file created with these options is closed
    /// when the process replaces its program.
    pub closed spec fn closes_on_exec(&self) -> bool {
        self.cloexec
    }

    /// The hugetlb page size of a file created with these options, if it is
    /// backed by hugetlb pages at all.
    pub closed spec fn hugetlb_size(&self) -> Option<HugetlbSize> {
        self.hugetlb
    }

    /// The flag word that the kernel is given: the bit-wise OR of the flag
    /// of each option that is set; with a page size, of the hugetlb flag and
    /// the size's selector.
    pub open spec fn flags(&self) -> u32 {
        bit_if(self.sealing_allowed(), MFD_ALLOW_SEALING) | bit_if(
            self.closes_on_exec(),
            MFD_CLOEXEC,
        ) | match self.hugetlb_size() {
            Some(size) => size.bits() | MFD_HUGETLB,
            None => 0,
        }
    }

    /// Default set of options for `Memfd` creation.
    ///
    /// The default options are:
    ///  * sealing: `F_SEAL_SEAL` (i.e. no further sealing)
    ///  * close-on-exec: false
    ///  * hugetlb: false
    pub fn new() -> (r: Self)
        ensures
            !r.sealing_allowed(),
            !r.closes_on_exec(),
            r.hugetlb_size() is None,
    {
        MemfdOptions { allow_sealing: false, cloexec: false, hugetlb: None }
    }

    /// Whether to allow sealing on the final memfd.
    pub fn allow_sealing(self, value: bool) -> (r: Self)
        ensures
            r.sealing_allowed() == value,
            r.closes_on_exec() == self.closes_on_exec(),
            r.hugetlb_size() == self.hugetlb_size(),
    {
        MemfdOptions { allow_sealing: value, cloexec: self.cloexec, hugetlb: self.hugetlb }
    }

    /// Whether to set the `FD_CLOEXEC` flag on the final memfd.
    pub fn close_on_exec(self, value: bool) -> (r: Self)
        ensures
            r.sealing_allowed() == self.sealing_allowed(),
            r.closes_on_exec() == value,
            r.hugetlb_size() == self.hugetlb_size(),
    {
        MemfdOptions { allow_sealing: self.allow_sealing, cloexec: value, hugetlb: self.hugetlb }
    }

    /// Optional hugetlb support and page size for the final memfd.
    pub fn hugetlb(self, size: Option<HugetlbSize>) -> (r: Self)
        ensures
            r.sealing_allowed() == self.sealing_allowed(),
            r.closes_on_exec() == self.closes_on_exec(),
            r.hugetlb_size() == size,
    {
        MemfdOptions { allow_sealing: self.allow_sealing, cloexec: self.cloexec, hugetlb: size }
    }

    /// Translates the current options into a bitflags value for `memfd_create`.
    pub fn bitflags(&self) -> (r: u32)
        ensures
            r == self.flags(),
    {
        let mut bits: u32 = 0;
        if self.allow_sealing {
            bits = bits | MFD_ALLOW_SEALING;
        }
        let b1: u32 = bits;
        if self.cloexec {
            bits = bits | MFD_CLOEXEC;
        }
        let b2: u32 = bits;
        if let Some(size) = self.hugetlb {
            let selector: u32 = size.bitflags();
            bits = bits | selector;
            bits = bits | MFD_HUGETLB;
            assert(bits == b2 | (selector | MFD_HUGETLB)) by {
                assert((b2 | selector) | 4u32 == b2 | (selector | 4u32)) by (bit_vector);
            }
        } else {
            assert(bits == b2 | 0u32) by {
                assert(b2 | 0u32 == b2) by (bit_vector);
            }
        }
        proof {
            assert(b1 == bit_if(self.allow_sealing, MFD_ALLOW_SEALING)) by {
                assert(0u32 | 2u32 == 2u32) by (bit_vector);
            }
            assert(b2 == b1 | bit_if(self.cloexec, MFD_CLOEXEC)) by {
                assert(b1 | 0u32 == b1) by (bit_vector);
            }
        }
        bits
    }

    /// Create a memfd according to configuration.
    ///
    /// A name that holds a null byte is refused before the kernel is asked,
    /// so no file is created for it. Any other name is handed to the kernel
    /// once, together with `self.flags()`; what the kernel answers becomes
    /// the result as `Memfd::from_created` says. A call that the kernel
    /// reports as interrupted is not made again: its error code is handed
    /// back like any other.
    pub fn create(&self, name: &str) -> (r: Result<Memfd, Error>)
        ensures
            has_nul(name) ==> r == Err::<Memfd, Error>(Error::NameEncoding),
            !has_nul(name) ==> (r is Ok || (r is Err && r->Err_0 is Create)),
    {
        if contains_nul(name) {
            return Err(Error::NameEncoding);
        }
        let flags = self.bitflags();
        Memfd::from_created(sys::memfd_create(name, flags))
    }
}

impl Default for MemfdOptions {
    fn default() -> (r: Self)
        ensures
            !r.sealing_allowed(),
            !r.closes_on_exec(),
            r.hugetlb_size() is None,
    {
        MemfdOptions::new()
    }
}

/// The options can be read back from the flag word: no two configurations
/// compile to the same flags.
pub proof fn lemma_flags_tell_options(a: MemfdOptions, b: MemfdOptions)
    requires
        a.flags() == b.flags(),
    ensures
        a == b,
{
    lemma_flags_decode(a);
    lemma_flags_decode(b);
    if a.hugetlb_size() is Some {
        lemma_selectors_differ(a.hugetlb_size()->Some_0, b.hugetlb_size()->Some_0);
    }
}

/// Each option shows in a bit of its own of the flag word, and the page
/// size in the six highest bits.
pub proof fn lemma_flags_decode(o: MemfdOptions)
    ensures
        (o.flags() & MFD_ALLOW_SEALING != 0) == o.sealing_allowed(),
        (o.flags() & MFD_CLOEXEC != 0) == o.closes_on_exec(),
        (o.flags() & MFD_HUGETLB != 0) == (o.hugetlb_size() is Some),
        o.flags() >> MFD_HUGE_SHIFT == match o.hugetlb_size() {
            Some(size) => size.log2_bytes(),
            None => 0,
        },
{
    let a = bit_if(o.sealing_allowed(), MFD_ALLOW_SEALING);
    let b = bit_if(o.closes_on_exec(), MFD_CLOEXEC);
    let l: u32 = match o.hugetlb_size() {
        Some(size) => size.log2_bytes(),
        None => 0,
    };
    let h: u32 = match o.hugetlb_size() {
        Some(size) => size.bits() | MFD_HUGETLB,
        None => 0,
    };
    let t: u32 = bit_if(o.hugetlb_size() is Some, MFD_HUGETLB);
    assert(h == (l << 26u32) | t) by {
        assert(0u32 == (0u32 << 26u32) | 0u32) by (bit_vector);
    }
    assert(((a | b | h) & 2 != 0) == (a != 0) && ((a | b | h) & 1 != 0) == (b != 0) && ((a | b
        | h) & 4 != 0) == (t != 0) && (a | b | h) >> 26u32 == l) by (bit_vector)
        requires
            a == 0 || a == 2,
            b == 0 || b == 1,
            t == 0 || t == 4,
            l < 64,
            h == (l << 26u32) | t,
    ;
}

/// Each page size has a selector of its own.
pub proof fn lemma_selectors_differ(a: HugetlbSize, b: HugetlbSize)
    requires
        a.bits() == b.bits(),
    ensures
        a == b,
{
    lemma_selectors();
}

/// An anonymous volatile file, with sealing capabilities.
///
/// The value owns its descriptor: it is closed when the value is dropped,
/// unless `into_file` has handed it on.
#[derive(Debug)]
pub struct Memfd {
    file: OwnedFd,
}

impl View for Memfd {
    type V = OwnedFd;

    closed spec fn view(&self) -> OwnedFd {
        self.file
    }
}

impl Memfd {
    /// The handle that owns the descriptor `file`.
    pub closed spec fn wrap(file: OwnedFd) -> Memfd {
        Memfd { file }
    }

    /// What the raw query for the seals makes of the kernel's answer `res`:
    /// the bitmask as the kernel gave it, every bit kept, or the kernel's
    /// error code as a failed query.
    pub open spec fn raw_queried(res: Result<u32, Errno>) -> Result<u32, Error> {
        match res {
            Ok(bits) => Ok(bits),
            Err(e) => Err(Error::GetSeals(e)),
        }
    }

    /// What `try_from_file` makes of the descriptor `fp` once the query for
    /// its seals has given `probe`: a handle that owns `fp` where the query
    /// succeeded, else `fp` itself.
    pub open spec fn probed(fp: OwnedFd, probe: Result<u32, Error>) -> Result<Memfd, OwnedFd> {
        match probe {
            Ok(_) => Ok(Memfd::wrap(fp)),
            Err(_) => Err(fp),
        }
    }

    /// What `create` makes of the kernel's answer `res`.
    pub open spec fn created(res: Result<OwnedFd, Errno>) -> Result<Memfd, Error> {
        match res {
            Ok(file) => Ok(Memfd::wrap(file)),
            Err(e) => Err(Error::Create(e)),
        }
    }

    /// Wrap the descriptor that the kernel gave for a new file, or report
    /// the kernel's error code as a failed creation.
    pub fn from_created(res: Result<OwnedFd, Errno>) -> (r: Result<Memfd, Error>)
        ensures
            r == Memfd::created(res),
    {
        match res {
            Ok(file) => Ok(Memfd { file }),
            Err(e) => Err(Error::Create(e)),
        }
    }

    /// Hand on the seal bitmask that the kernel gave, or report the kernel's
    /// error code as a failed query.
    pub fn raw_query_result(res: Result<u32, Errno>) -> (r: Result<u32, Error>)
        ensures
            r == Memfd::raw_queried(res),
    {
        match res {
            Ok(bits) => Ok(bits),
            Err(e) => Err(Error::GetSeals(e)),
        }
    }

    /// Decide on a descriptor by the outcome of the query for its seals:
    /// where the query succeeded, the descriptor supports sealing and becomes
    /// a handle; where it failed, the descriptor is handed back.
    pub fn from_probed(fp: OwnedFd, probe: Result<u32, Error>) -> (r: Result<Memfd, OwnedFd>)
        ensures
            r == Memfd::probed(fp, probe),
    {
        match probe {
            Ok(_) => Ok(Memfd { file: fp }),
            Err(_) => Err(fp),
        }
    }

    /// Try to convert a descriptor into a `Memfd`.
    ///
    /// This requires transferring ownership of the descriptor. If it is
    /// compatible with memfd/sealing, that is, if the kernel answers a query
    /// for its seals, it returns a proper `Memfd` object, otherwise it
    /// transfers back ownership of the descriptor for further usage.
    /// Either way the descriptor that comes back is the one that went in.
    pub fn try_from_file(fp: OwnedFd) -> (r: Result<Memfd, OwnedFd>)
        ensures
            r == Ok::<Memfd, OwnedFd>(Memfd::wrap(fp)) || r == Err::<Memfd, OwnedFd>(fp),
    {
        let probe = Memfd::file_get_seals(&fp);
        Memfd::from_probed(fp, probe)
    }

    /// Return the descriptor of this memfd, which stays owned by `self`.
    pub fn as_file(&self) -> (r: &OwnedFd)
        ensures
            *r == self@,
    {
        &self.file
    }

    /// Consume this `Memfd`, returning the underlying descriptor.
    pub fn into_file(self) -> (r: OwnedFd)
        ensures
            r == self@,
    {
        self.file
    }

    /// What `seals` makes of the outcome `res` of the raw query: the set
    /// that the bitmask stands for, or the query's error as it is.
    pub open spec fn queried(res: Result<u32, Error>) -> Result<Set<FileSeal>, Error> {
        match res {
            Ok(bits) => Ok(decode(bits)),
            Err(e) => Err(e),
        }
    }

    /// Decode the seal bitmask that the raw query gave, or hand on its
    /// error.
    pub fn seals_from_query(res: Result<u32, Error>) -> (r: Result<SealSet, Error>)
        ensures
            match r {
                Ok(seals) => Memfd::queried(res) == Ok::<Set<FileSeal>, Error>(seals@),
                Err(e) => Memfd::queried(res) == Err::<Set<FileSeal>, Error>(e),
            },
    {
        match res {
            Ok(bits) => Ok(bitflags_to_seals(bits)),
            Err(e) => Err(e),
        }
    }

    /// Return the current set of seals.
    ///
    /// The kernel is asked on every call; nothing is kept from one call to
    /// the next. What the raw query gives becomes the result as
    /// `seals_from_query` says, so a failure is always a `GetSeals` error. A
    /// call that the kernel reports as interrupted is not made again.
    pub fn seals(&self) -> (r: Result<SealSet, Error>)
        ensures
            r is Err ==> r->Err_0 is GetSeals,
    {
        Memfd::seals_from_query(Memfd::file_get_seals(&self.file))
    }

    /// What `add_seals` makes of the kernel's answer `res`.
    pub open spec fn added(res: Result<(), Errno>) -> Result<(), Error> {
        match res {
            Ok(_) => Ok(()),
            Err(e) => Err(Error::AddSeals(e)),
        }
    }

    /// Report the kernel's answer to a request for more seals: success, or
    /// the kernel's error code as a failed request.
    pub fn seals_added(res: Result<(), Errno>) -> (r: Result<(), Error>)
        ensures
            r == Memfd::added(res),
    {
        match res {
            Ok(_) => Ok(()),
            Err(e) => Err(Error::AddSeals(e)),
        }
    }

    /// Add a single seal to the existing set of seals.
    pub fn add_seal(&self, seal: FileSeal) -> (r: Result<(), Error>)
        ensures
            r is Err ==> r->Err_0 is AddSeals,
    {
        let mut set = SealSet::new();
        let _ = set.insert(seal);
        self.add_seals(&set)
    }

    /// Add some seals to the existing set of seals.
    ///
    /// The kernel is handed the bitmask of `seals` and nothing else; seals
    /// that the file already has are not read first. What it answers becomes
    /// the result as `seals_added` says, so a failure is always an `AddSeals`
    /// error. A call that the kernel reports as interrupted is not made
    /// again.
    pub fn add_seals(&self, seals: &SealSet) -> (r: Result<(), Error>)
        ensures
            r is Err ==> r->Err_0 is AddSeals,
    {
        let flags = seals_to_bitflags(seals);
        Memfd::seals_added(sys::fcntl_add_seals(&self.file, flags))
    }

    /// Return the current sealing bitflags.
    ///
    /// The kernel is asked once. What it answers becomes the result as
    /// `raw_query_result` says, so a failure is always a `GetSeals` error.
    fn file_get_seals(fp: &OwnedFd) -> (r: Result<u32, Error>)
        ensures
            r is Err ==> r->Err_0 is GetSeals,
    {
        Memfd::raw_query_result(sys::fcntl_get_seals(fp))
    }
}

/// A handle that gave up its descriptor gets it back unchanged: the
/// descriptor of `into_file`, once the query for its seals succeeds, makes
/// the handle that it came from. Where the query fails, the descriptor
/// itself comes back, whatever it stands for.
pub proof fn lemma_into_file_try_from_file(memfd: Memfd, bits: u32, fp: OwnedFd, e: Error)
    ensures
        Memfd::probed(memfd@, Ok(bits)) == Ok::<Memfd, OwnedFd>(memfd),
        Memfd::probed(fp, Err(e)) == Err::<Memfd, OwnedFd>(fp),
        Memfd::wrap(fp)@ == fp,
{
}

} // verus!

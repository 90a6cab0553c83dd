//! The calls into the operating system, made through `rustix`.
//!
//! Nothing in this file is proved. Each function states what its caller may
//! rely on; what the kernel answers is left open.

use rustix::fd::OwnedFd;
use rustix::fs::{MemfdFlags, SealFlags};
use rustix::io::Errno;
use vstd::prelude::*;
use vstd::string::StringSliceAdditionalSpecFns;

verus! {

/// `rustix::io::Errno`: an error code of the operating system. Its value is
/// not looked into here.
#[verifier::external_type_specification]
#[verifier::external_body]
pub struct ExErrno(rustix::io::Errno);

/// `rustix::fd::OwnedFd`: an open descriptor, closed when the value is
/// dropped. Its number is not looked into here.
#[verifier::external_type_specification]
#[verifier::external_body]
pub struct ExOwnedFd(rustix::fd::OwnedFd);

/// Calls `rustix::fs::memfd_create` with `name` and the flag word `flags`,
/// every bit of which is handed on. Nothing is claimed of the outcome: the
/// kernel gives a new descriptor or an error code.
#[verifier::external_body]
pub(crate) fn memfd_create(name: &str, flags: u32) -> (r: Result<OwnedFd, Errno>)
    requires
        !name.spec_bytes().contains(0u8),
{
    rustix::fs::memfd_create(name, MemfdFlags::from_bits_retain(flags))
}

/// Calls `rustix::fs::fcntl_get_seals` on `fd` and hands back the bits of the
/// flags it returns. Nothing is claimed of the outcome: the kernel gives the
/// seal bitmask of the file or an error code.
#[verifier::external_body]
pub(crate) fn fcntl_get_seals(fd: &OwnedFd) -> (r: Result<u32, Errno>) {
    match rustix::fs::fcntl_get_seals(fd) {
        Ok(flags) => Ok(flags.bits()),
        Err(e) => Err(e),
    }
}

/// Calls `rustix::fs::fcntl_add_seals` on `fd` with the seal bitmask `bits`,
/// every bit of which is handed on. Nothing is claimed of the outcome: the
/// kernel adds the seals or gives an error code.
#[verifier::external_body]
pub(crate) fn fcntl_add_seals(fd: &OwnedFd, bits: u32) -> (r: Result<(), Errno>) {
    rustix::fs::fcntl_add_seals(fd, SealFlags::from_bits_retain(bits))
}

} // verus!

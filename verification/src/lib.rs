//! Anonymous, memory-backed files with sealing.
//!
//! A [`MemfdOptions`] value describes how such a file is to be created and
//! compiles itself into the kernel's creation flags; a [`Memfd`] owns the
//! descriptor of one such file and queries or extends its seals. The seal
//! codec translates between a [`SealSet`] and the kernel's seal bitmask.

pub mod errors;
pub mod memfd;
pub mod sealing;
pub mod sys;

pub use crate::errors::Error;
pub use crate::memfd::{HugetlbSize, Memfd, MemfdOptions};
pub use crate::sealing::{FileSeal, SealSet};

//! Error handling.

use rustix::io::Errno;
use vstd::prelude::*;

verus! {

/// Enumeration of errors possible in this library.
#[derive(Debug)]
pub enum Error {
    /// The name holds a null byte, so it cannot be handed to the kernel.
    NameEncoding,
    /// Cannot create the memfd.
    Create(Errno),
    /// Cannot add new seals to the memfd.
    AddSeals(Errno),
    /// Cannot read the seals of a memfd.
    GetSeals(Errno),
}

impl Error {
    /// What `source` returns: the error of the operating system, where the
    /// failure came from it.
    pub open spec fn cause(&self) -> Option<Errno> {
        match *self {
            Error::NameEncoding => None,
            Error::Create(e) => Some(e),
            Error::AddSeals(e) => Some(e),
            Error::GetSeals(e) => Some(e),
        }
    }

    /// The error of the operating system that lies under this one, if any.
    pub fn source(&self) -> (r: Option<&Errno>)
        ensures
            r is Some == self.cause() is Some,
            r is Some ==> *r->Some_0 == self.cause()->Some_0,
    {
        match self {
            Error::NameEncoding => None,
            Error::Create(e) => Some(e),
            Error::AddSeals(e) => Some(e),
            Error::GetSeals(e) => Some(e),
        }
    }

    /// What `message` returns, as a sequence of characters.
    pub open spec fn message_text(&self) -> Seq<char> {
        match *self {
            Error::NameEncoding => "the name of a memfd cannot hold a null byte"@,
            Error::Create(_) => "cannot create a memfd"@,
            Error::AddSeals(_) => "cannot add seals to the memfd"@,
            Error::GetSeals(_) => "cannot read seals for a memfd"@,
        }
    }

    /// A short description of the failure, without its cause.
    pub fn message(&self) -> (r: &'static str)
        ensures
            r@ == self.message_text(),
    {
        match self {
            Error::NameEncoding => "the name of a memfd cannot hold a null byte",
            Error::Create(_) => "cannot create a memfd",
            Error::AddSeals(_) => "cannot add seals to the memfd",
            Error::GetSeals(_) => "cannot read seals for a memfd",
        }
    }
}

} // verus!

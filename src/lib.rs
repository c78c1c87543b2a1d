//! A typed request layer over the `zfs` command-line tool: builders that
//! validate requests, the argument lists they turn into, and the parsing of
//! the tool's output.
use vstd::prelude::*;

pub mod props;
pub mod text;
pub mod zfs;

verus! {

/// Every failure of this library.
#[derive(Debug)]
pub enum Error {
    /// The tool could not be started or talked to; the message of the failure.
    IOError(String),
    /// The tool wrote bytes that are not UTF-8; those bytes.
    FromUtf8Error(Vec<u8>),
    /// A request could not be built.
    ZfsBuilderError(zfs::ZfsBuilderError),
    /// `zfs` exited with a failure; what it wrote to standard error.
    ZFSError(String),
    /// `zpool` exited with a failure; what it wrote to standard error.
    ZpoolError(String),
    /// A list type token that is none of the known ones.
    InvalidZfsListType(String),
}

} // verus!

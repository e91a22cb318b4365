use vstd::prelude::*;

verus! {

/// Why setting a transfer up failed. Raised when a downloader is
/// constructed, before any byte moves.
#[derive(Clone, Copy, Debug, PartialEq, Eq, Structural)]
pub enum InitError {
    /// The destination directory cannot be created or written to.
    DestinationUnwritable,
    /// The remote resource's total size could not be determined.
    SizeUnknown,
}

/// Why resolving a sharing link to its asset URLs failed. A resolution
/// failure aborts the whole run before any transfer starts.
#[derive(Clone, Copy, Debug, PartialEq, Eq, Structural)]
pub enum ResolveError {
    /// The metadata document was not parseable JSON.
    MetadataUnparseable,
}

/// Why a running transfer failed.
#[derive(Clone, Copy, Debug, PartialEq, Eq, Structural)]
pub enum TransferError {
    /// The connection failed mid-stream.
    Interrupted,
    /// The stream ended before the counted bytes reached the total.
    PrematureEnd,
    /// Appending a chunk to the destination file failed.
    WriteFailed,
    /// A chunk would have pushed the counted bytes past the total.
    Overrun,
}

} // verus!

use vstd::prelude::*;

verus! {

/// The failure kinds this layer surfaces. Every I/O step maps to its own
/// kind and is handed to the caller unmodified: the layer retries nothing
/// and masks nothing.
#[derive(Debug, Clone, Copy, PartialEq, Eq, Structural)]
pub enum Error {
    /// The filename could not be resolved to an open file.
    FileNotFound,
    /// Opening or creating the underlying file failed.
    FileCreationFailed,
    /// Repositioning within a file failed.
    SeekFailed,
    /// Reading a block failed.
    ReadFailed,
    /// Writing a block failed.
    WriteFailed,
    /// A lock's previous holder terminated abnormally.
    LockPoisoned,
}

} // verus!

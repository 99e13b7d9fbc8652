use vstd::prelude::*;

verus! {

/// Declares `std::io::Error` to the verifier. A value of it is opaque here:
/// it is produced by the filesystem wrappers and carried through unchanged
/// inside [`Error::Io`].
#[verifier::external_type_specification]
#[verifier::external_body]
pub struct ExIoError(std::io::Error);

/// One failure met while resolving a destination or copying a tree.
///
/// The precondition failures — a missing source, an occupied destination, a
/// merge target that is not a directory, a source with no final component —
/// are returned by the entry points before any copying starts. The walk's
/// own failures ([`is_walk_error`]) are reported per entry through a
/// [`crate::Handler`] while the remaining entries are still copied.
#[derive(Debug)]
pub enum Error {
    /// Something already stands at the destination path.
    DestinationExists { source: String, destination: String },
    /// Nothing exists at the source path.
    SourceDoesNotExist(String),
    /// The visited source directory is the destination root of this very
    /// copy: descending into it would copy the copy into itself without end.
    SourceIsDestinationRoot { source: String, destination: String },
    /// The resolved merge target exists and is not a directory.
    TargetNotADirectory(String),
    /// The source path has no final component that could be nested under an
    /// existing destination directory.
    CannotDetermineBasename(String),
    /// The entry is neither a regular file, a directory, nor a symbolic
    /// link.
    Unknown(String),
    /// Any other failure of the platform's filesystem interface.
    Io(std::io::Error),
}

/// The errors a walk itself can report, entry by entry — as opposed to the
/// refusals an entry point returns before any copying starts.
pub open spec fn is_walk_error(e: Error) -> bool {
    ||| e matches Error::Io(_)
    ||| e matches Error::SourceIsDestinationRoot { .. }
    ||| e matches Error::Unknown(_)
}

impl From<std::io::Error> for Error {
    fn from(err: std::io::Error) -> (r: Error) {
        Error::Io(err)
    }
}

impl vstd::std_specs::convert::FromSpecImpl<std::io::Error> for Error {
    open spec fn obeys_from_spec() -> bool {
        true
    }

    open spec fn from_spec(err: std::io::Error) -> Error {
        Error::Io(err)
    }
}

} // verus!

use vstd::prelude::*;

verus! {

/// The error taxonomy of the whole pipeline. Every fallible step maps the
/// failure of a collaborator service into one of these kinds at the
/// boundary, carrying only the context needed for a user-facing message.
#[derive(Debug, Clone)]
pub enum UklientError {
    /// A Java runtime could not be located on the machine.
    JavaLocateError(String),
    /// The one-shot handoff channel of the browser login flow was closed.
    RecvError(String),
    /// A filesystem operation failed.
    IoError(String),
    /// A recursive directory copy failed.
    FsExtraError(String),
    /// Joining the concurrent login task failed.
    JoinError(String),
    /// The external profile registration or launch call failed.
    TheseusError(String),
    /// The loader metadata service failed.
    DaedalusError(String),
    /// A JSON document could not be decoded.
    JsonError(String),
    /// The download primitive failed.
    LibiumError(String),
    /// Resolving the modpack download failed.
    LibiumModpackError(String),
    /// The content-host client failed.
    FerinthError(String),
    /// The downloaded archive was malformed; no further detail is retained.
    ZipError,
    /// No metadata was found for the named backend.
    MetaError(String),
    /// An override entry was neither a file nor a directory.
    UnknownTypeError(String),
    /// A synchronization primitive could not be acquired.
    AcquireError(String),
    /// An HTTP transport failure.
    ReqwestError(String),
    /// No suitable Java runtime exists.
    JavaNotFoundError,
    /// A game version string could not be parsed.
    VersionError(String),
    /// A URL could not be parsed.
    UrlParseError(String),
    /// The interactive login failed, with a free-text reason.
    LoginError(String),
}

} // verus!

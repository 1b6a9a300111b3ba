//! Errors which signal faulty behaviour.
//!
//! MiniView always reports faulty behaviour as a typed error value returned to
//! the caller; the library itself never decides to terminate the process.
//! Every variant carries a fixed human-readable message, available through
//! [`MiniViewError::message`] and [`ImportError::message`], so that a
//! command-line surface can render each failure and map it to a nonzero exit
//! code.

use vstd::prelude::*;

verus! {

/// The top-level error type.
#[derive(Debug, Clone, Copy, PartialEq, Eq)]
pub enum MiniViewError {
    /// An empty input path was given.
    EmptyInputPath,

    /// An image could not be loaded from a [`Source`](crate::Source).
    FailedToImport(ImportError),

    /// The input mode could not be determined from the command-line selection.
    CliUnableToDetermineInputMode,

    /// The close signal could not be sent to the window worker, and the worker
    /// itself exited cleanly, so no more authoritative outcome is available.
    SendStopError,

    /// A graphical window could not be created.
    UnableToCreateWindow,

    /// The image could not be mapped to the texture shown by the window.
    UnableToMapImage,

    /// The worker thread terminated abnormally instead of returning a value.
    ViewThreadFailedToJoin,
}

/// Errors related to loading an image from a path or stream.
#[derive(Debug, Clone, Copy, PartialEq, Eq)]
pub enum ImportError {
    /// The given path could not be found on the filesystem, or the file there
    /// could not be loaded as an image.
    OnPathNotFound,

    /// The standard input could not be read.
    OnStdinUnableToRead,

    /// A path was expected on the standard input, but the input was empty.
    OnStdinPathWasEmpty,

    /// An encoded image was expected on the standard input, but the input was
    /// empty.
    OnStdinBytesStreamWasEmpty,

    /// Bytes arrived on the standard input, but they could not be decoded as
    /// an image in any recognised format.
    OnStdinBytesUnableToGuessOrLoadFormat,
}

impl MiniViewError {
    /// The fixed human-readable message of this error.
    pub open spec fn spec_message(self) -> Seq<char> {
        match self {
            MiniViewError::EmptyInputPath => "No path to an image was provided."@,
            MiniViewError::FailedToImport(cause) => cause.spec_message(),
            MiniViewError::CliUnableToDetermineInputMode => "Unable to determine input mode."@,
            MiniViewError::SendStopError => "Unable to signal window to stop showing"@,
            MiniViewError::UnableToCreateWindow => "Unable to create a window to display the image."@,
            MiniViewError::UnableToMapImage => "Unable to map the image to a texture."@,
            MiniViewError::ViewThreadFailedToJoin => "View thread exited improperly"@,
        }
    }

    /// Renders the human-readable message for this error.
    pub fn message(&self) -> (msg: String)
        ensures
            msg@ == self.spec_message(),
    {
        match self {
            MiniViewError::EmptyInputPath => "No path to an image was provided.".to_owned(),
            MiniViewError::FailedToImport(cause) => cause.message(),
            MiniViewError::CliUnableToDetermineInputMode => "Unable to determine input mode.".to_owned(),
            MiniViewError::SendStopError => "Unable to signal window to stop showing".to_owned(),
            MiniViewError::UnableToCreateWindow => "Unable to create a window to display the image.".to_owned(),
            MiniViewError::UnableToMapImage => "Unable to map the image to a texture.".to_owned(),
            MiniViewError::ViewThreadFailedToJoin => "View thread exited improperly".to_owned(),
        }
    }
}

impl ImportError {
    /// The fixed human-readable message of this error.
    pub open spec fn spec_message(self) -> Seq<char> {
        match self {
            ImportError::OnPathNotFound => "Provided path to image could not be found or loaded."@,
            ImportError::OnStdinUnableToRead => "Unable to read from the stdin."@,
            ImportError::OnStdinPathWasEmpty => "Given path to image was empty."@,
            ImportError::OnStdinBytesStreamWasEmpty => "Stdin was empty."@,
            ImportError::OnStdinBytesUnableToGuessOrLoadFormat => "The input received from stdin could not be loaded."@,
        }
    }

    /// Renders the human-readable message for this error.
    pub fn message(&self) -> (msg: String)
        ensures
            msg@ == self.spec_message(),
    {
        match self {
            ImportError::OnPathNotFound => "Provided path to image could not be found or loaded.".to_owned(),
            ImportError::OnStdinUnableToRead => "Unable to read from the stdin.".to_owned(),
            ImportError::OnStdinPathWasEmpty => "Given path to image was empty.".to_owned(),
            ImportError::OnStdinBytesStreamWasEmpty => "Stdin was empty.".to_owned(),
            ImportError::OnStdinBytesUnableToGuessOrLoadFormat => "The input received from stdin could not be loaded.".to_owned(),
        }
    }
}

impl From<ImportError> for MiniViewError {
    /// Wraps an import failure in the top-level error type.
    fn from(cause: ImportError) -> (err: MiniViewError) {
        MiniViewError::FailedToImport(cause)
    }
}

impl vstd::std_specs::convert::FromSpecImpl<ImportError> for MiniViewError {
    open spec fn obeys_from_spec() -> bool {
        true
    }

    open spec fn from_spec(cause: ImportError) -> MiniViewError {
        MiniViewError::FailedToImport(cause)
    }
}

} // verus!

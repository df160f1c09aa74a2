use vstd::prelude::*;

verus! {

/// Why a container operation failed.
#[derive(Debug, Clone, Copy, PartialEq, Eq, Structural)]
pub enum ContainerError {
    /// A byte range could not be read in full, or the host file could not be
    /// opened, sought or written.
    IoError,
    /// The trailing marker of the requested format is not there.
    FormatNotFound,
    /// The marker is there, but the lengths or offsets behind it contradict the
    /// file, or the manifest could not be decoded.
    CorruptFormat,
    /// The manifest is valid and holds no entry with the requested id.
    AssetNotFound,
    /// The bytes were recovered, but they are not valid UTF-8 text.
    DecodeError,
    /// Neither container format nor a loose project file yielded project data.
    NoProjectData,
}

impl ContainerError {
    /// Whether a reader that meets this error may go on to the next candidate
    /// format. Only a missing marker is recoverable.
    pub fn is_recoverable(&self) -> (r: bool)
        ensures
            r == (*self == ContainerError::FormatNotFound),
    {
        match self {
            ContainerError::FormatNotFound => true,
            _ => false,
        }
    }
}

} // verus!

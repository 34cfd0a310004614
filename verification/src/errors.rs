use vstd::prelude::*;

verus! {

/// The terminal failures of the two shell operations. Every error is final
/// for the one invocation: no retries, no partial results.
#[derive(Clone, Copy, Debug, PartialEq, Eq, Structural)]
pub enum ShellError {
    /// The OS shell could not resolve an icon or a shell identifier.
    ShellQueryError,
    /// A graphics surface could not be allocated.
    SurfaceAllocationError,
    /// Image encoding failed.
    EncodeError,
    /// The shell data object for a drag selection could not be built.
    DataObjectError,
    /// A drag was requested for an empty selection.
    EmptySelectionError,
    /// The paths of a drag selection do not share one parent directory.
    CrossDirectoryError,
    /// The platform has no native shell support.
    PlatformUnsupportedError,
}

impl ShellError {
    /// The human-readable message surfaced to the caller for this error.
    pub open spec fn message_spec(self) -> Seq<char> {
        match self {
            ShellError::ShellQueryError => "shell query failed"@,
            ShellError::SurfaceAllocationError => "surface allocation failed"@,
            ShellError::EncodeError => "image encoding failed"@,
            ShellError::DataObjectError => "data object construction failed"@,
            ShellError::EmptySelectionError => "no paths provided for drag"@,
            ShellError::CrossDirectoryError => (
                "paths do not share one parent directory"@
            ),
            ShellError::PlatformUnsupportedError => (
                "native shell integration is not supported on this platform"@
            ),
        }
    }

    /// Renders the error as a human-readable message.
    pub fn message(&self) -> (r: String)
        ensures
            r@ == self.message_spec(),
    {
        match self {
            ShellError::ShellQueryError => "shell query failed".to_owned(),
            ShellError::SurfaceAllocationError => "surface allocation failed".to_owned(),
            ShellError::EncodeError => "image encoding failed".to_owned(),
            ShellError::DataObjectError => "data object construction failed".to_owned(),
            ShellError::EmptySelectionError => "no paths provided for drag".to_owned(),
            ShellError::CrossDirectoryError => "paths do not share one parent directory".to_owned(),
            ShellError::PlatformUnsupportedError => "native shell integration is not supported on this platform".to_owned(),
        }
    }
}

} // verus!

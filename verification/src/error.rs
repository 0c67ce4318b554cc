//! The ways in which a build fails.

use vstd::prelude::*;

verus! {

/// Why a build ended without success.
#[derive(Clone, Copy, Debug, PartialEq, Eq, Structural)]
pub enum BuildError {
    /// Neither the configuration command nor an installation directory
    /// gave the compiler flags of the toolkit.
    Unresolved,
    /// The source folder could not be listed.
    SourceFolderUnreadable,
    /// The library directory of the installation could not be listed.
    LibraryDirUnreadable,
    /// The driver answered with something that was not asked for.
    UnexpectedEvent,
}

/// The diagnostic of an error.
pub open spec fn diagnostic(error: BuildError) -> Seq<char> {
    match error {
        BuildError::Unresolved => "No WX_CONFIG or WX_DIR set"@,
        BuildError::SourceFolderUnreadable => "cannot list the source folder"@,
        BuildError::LibraryDirUnreadable => "cannot list the library directory"@,
        BuildError::UnexpectedEvent => "unexpected answer from the driver"@,
    }
}

/// Whether an error gives the build up with its diagnostic. The others are
/// failures of the file system, which are handed back to the caller.
pub open spec fn fatal(error: BuildError) -> bool {
    match error {
        BuildError::Unresolved => true,
        BuildError::SourceFolderUnreadable => false,
        BuildError::LibraryDirUnreadable => false,
        BuildError::UnexpectedEvent => true,
    }
}

impl BuildError {
    /// The diagnostic to show for this error.
    pub fn message(&self) -> (text: String)
        ensures
            text@ == diagnostic(*self),
    {
        match self {
            BuildError::Unresolved => String::from_str("No WX_CONFIG or WX_DIR set"),
            BuildError::SourceFolderUnreadable => String::from_str("cannot list the source folder"),
            BuildError::LibraryDirUnreadable => String::from_str(
                "cannot list the library directory",
            ),
            BuildError::UnexpectedEvent => String::from_str("unexpected answer from the driver"),
        }
    }

    /// Whether the build is given up with the diagnostic, rather than
    /// handing a failure of the file system back to the caller.
    pub fn is_fatal(&self) -> (given_up: bool)
        ensures
            given_up == fatal(*self),
    {
        match self {
            BuildError::Unresolved => true,
            BuildError::SourceFolderUnreadable => false,
            BuildError::LibraryDirUnreadable => false,
                BuildError::UnexpectedEvent => true,
        }
    }
}

} // verus!

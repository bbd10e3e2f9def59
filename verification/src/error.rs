//! Why a resolution can fail.

use vstd::prelude::*;

verus! {

/// The reason for which the two directories could not be had. Each one is
/// final: nothing is retried and no other location is tried instead.
#[derive(PartialEq, Eq, Debug)]
pub enum DirectoryResolutionError {
    /// The home directory was needed as a fallback and could not be found.
    HomeUnknown,
    /// The platform names no base directory, and nothing else applied.
    PlatformDirsUnavailable,
    /// The directory with the given path could not be created; the second
    /// text is the cause that the host reported.
    CreateFailed(String, String),
}

/// What a [`DirectoryResolutionError`] stands for in contracts.
pub enum Failure {
    HomeUnknown,
    PlatformDirsUnavailable,
    CreateFailed(Seq<char>, Seq<char>),
}

impl View for DirectoryResolutionError {
    type V = Failure;

    open spec fn view(&self) -> Failure {
        match self {
            DirectoryResolutionError::HomeUnknown => Failure::HomeUnknown,
            DirectoryResolutionError::PlatformDirsUnavailable => Failure::PlatformDirsUnavailable,
            DirectoryResolutionError::CreateFailed(path, cause) => Failure::CreateFailed(
                path@,
                cause@,
            ),
        }
    }
}

impl Clone for DirectoryResolutionError {
    fn clone(&self) -> (copy: DirectoryResolutionError)
        ensures
            copy@ == self@,
    {
        match self {
            DirectoryResolutionError::HomeUnknown => DirectoryResolutionError::HomeUnknown,
            DirectoryResolutionError::PlatformDirsUnavailable => {
                DirectoryResolutionError::PlatformDirsUnavailable
            },
            DirectoryResolutionError::CreateFailed(path, cause) => {
                DirectoryResolutionError::CreateFailed(path.clone(), cause.clone())
            },
        }
    }
}

impl Failure {
    /// The diagnostic for this failure: it names the step that failed and,
    /// for a directory that could not be created, the path and the cause.
    pub open spec fn message(self) -> Seq<char> {
        match self {
            Failure::HomeUnknown => "could not determine the home directory"@,
            Failure::PlatformDirsUnavailable => "the platform names no base directory"@,
            Failure::CreateFailed(path, cause) => "cannot create directory "@ + path + ": "@
                + cause,
        }
    }
}

impl DirectoryResolutionError {
    /// The diagnostic to show to the user.
    pub fn message(&self) -> (text: String)
        ensures
            text@ == self@.message(),
    {
        match self {
            DirectoryResolutionError::HomeUnknown => String::from_str(
                "could not determine the home directory",
            ),
            DirectoryResolutionError::PlatformDirsUnavailable => String::from_str(
                "the platform names no base directory",
            ),
            DirectoryResolutionError::CreateFailed(path, cause) => String::from_str(
                "cannot create directory ",
            ).concat(path.as_str()).concat(": ").concat(cause.as_str()),
        }
    }
}

} // verus!

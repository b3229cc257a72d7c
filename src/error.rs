use vstd::prelude::*;

verus! {

/// Everything that can go wrong while looking for Roblox Studio.
#[derive(Clone, Debug, PartialEq, Eq)]
#[non_exhaustive]
pub enum Error {
    /// The user's Documents directory could not be determined.
    DocumentsDirectoryNotFound,
    /// The registry names a content folder that has no parent directory.
    MalformedRegistry,
    /// No way is known to find Roblox Studio on this platform.
    PlatformNotSupported,
    /// The user's home directory, and so the plugins directory, could not be determined.
    PluginsDirectoryNotFound,
    /// The registry key or value could not be read; holds the cause.
    RegistryError(String),
    /// The override variable holds no usable path; holds a description.
    EnvironmentVariableError(String),
    /// Roblox Studio is not installed where it was looked for.
    NotInstalled,
    /// Detecting the Windows Subsystem for Linux failed.
    WSLDetectionError,
}

/// What an [`Error`] says, with its texts as sequences of characters.
pub enum ErrorView {
    DocumentsDirectoryNotFound,
    MalformedRegistry,
    PlatformNotSupported,
    PluginsDirectoryNotFound,
    RegistryError(Seq<char>),
    EnvironmentVariableError(Seq<char>),
    NotInstalled,
    WSLDetectionError,
}

impl View for Error {
    type V = ErrorView;

    open spec fn view(&self) -> ErrorView {
        match self {
            Error::DocumentsDirectoryNotFound => ErrorView::DocumentsDirectoryNotFound,
            Error::MalformedRegistry => ErrorView::MalformedRegistry,
            Error::PlatformNotSupported => ErrorView::PlatformNotSupported,
            Error::PluginsDirectoryNotFound => ErrorView::PluginsDirectoryNotFound,
            Error::RegistryError(m) => ErrorView::RegistryError(m@),
            Error::EnvironmentVariableError(m) => ErrorView::EnvironmentVariableError(m@),
            Error::NotInstalled => ErrorView::NotInstalled,
            Error::WSLDetectionError => ErrorView::WSLDetectionError,
        }
    }
}

/// The human-readable description of an error.
pub open spec fn message_of(e: ErrorView) -> Seq<char> {
    match e {
        ErrorView::DocumentsDirectoryNotFound => "Couldn't find Documents directory"@,
        ErrorView::MalformedRegistry => "The values of the registry keys used to find Roblox are malformed, maybe your Roblox installation is corrupt?"@,
        ErrorView::PlatformNotSupported => "Your platform is not currently supported"@,
        ErrorView::PluginsDirectoryNotFound => "Couldn't find Plugins directory"@,
        ErrorView::RegistryError(_) => "Couldn't find registry keys, Roblox might not be installed."@,
        ErrorView::EnvironmentVariableError(m) => "Environment variable misconfigured: "@ + m,
        ErrorView::NotInstalled => "Couldn't find Roblox Studio"@,
        ErrorView::WSLDetectionError => "Failed to detect WSL environment"@,
    }
}

impl Error {
    /// A human-readable description of the error.
    pub fn message(&self) -> (r: String)
        ensures
            r@ == message_of(self@),
    {
        match self {
            Error::DocumentsDirectoryNotFound => String::from_str(
                "Couldn't find Documents directory",
            ),
            Error::MalformedRegistry => String::from_str(
                "The values of the registry keys used to find Roblox are malformed, maybe your Roblox installation is corrupt?",
            ),
            Error::PlatformNotSupported => String::from_str(
                "Your platform is not currently supported",
            ),
            Error::PluginsDirectoryNotFound => String::from_str("Couldn't find Plugins directory"),
            Error::RegistryError(_) => String::from_str(
                "Couldn't find registry keys, Roblox might not be installed.",
            ),
            Error::EnvironmentVariableError(m) => String::from_str(
                "Environment variable misconfigured: ",
            ).concat(m.as_str()),
            Error::NotInstalled => String::from_str("Couldn't find Roblox Studio"),
            Error::WSLDetectionError => String::from_str("Failed to detect WSL environment"),
        }
    }
}

} // verus!

use vstd::prelude::*;

use crate::path::{join, join_path, PathStyle};

verus! {

/// The five paths of a Roblox Studio installation, as sequences of characters.
pub struct StudioPaths {
    pub root: Seq<char>,
    pub application: Seq<char>,
    pub content: Seq<char>,
    pub built_in_plugins: Seq<char>,
    pub plugins: Seq<char>,
}

/// A Roblox Studio installation that was found, with the paths that belong to it.
/// All of them come from one installation; the plugins directory may not exist
/// yet, as Roblox Studio creates it on first use.
#[derive(Debug)]
#[must_use]
pub struct RobloxStudio {
    content: String,
    application: String,
    built_in_plugins: String,
    plugins: String,
    root: String,
}

impl View for RobloxStudio {
    type V = StudioPaths;

    closed spec fn view(&self) -> StudioPaths {
        StudioPaths {
            root: self.root@,
            application: self.application@,
            content: self.content@,
            built_in_plugins: self.built_in_plugins@,
            plugins: self.plugins@,
        }
    }
}

/// File name of the Studio executable in a Windows installation.
pub open spec fn windows_executable() -> Seq<char> {
    "RobloxStudioBeta.exe"@
}

/// The user's plugin directory below a Windows home directory.
pub open spec fn windows_plugins(style: PathStyle, home: Seq<char>) -> Seq<char> {
    join(style, join(style, join(style, join(style, home, "AppData"@), "Local"@), "Roblox"@), "Plugins"@)
}

/// The paths of a Windows installation whose version folder is `root`.
pub open spec fn version_layout(style: PathStyle, root: Seq<char>, plugins: Seq<char>) -> StudioPaths {
    StudioPaths {
        root,
        application: join(style, root, windows_executable()),
        content: join(style, root, "content"@),
        built_in_plugins: join(style, root, "BuiltInPlugins"@),
        plugins,
    }
}

/// The paths of a Windows installation as the registry records it: the content
/// folder as given, the rest beside it in `root`.
pub open spec fn registry_layout(root: Seq<char>, content: Seq<char>, plugins: Seq<char>) -> StudioPaths {
    StudioPaths {
        root,
        application: join(PathStyle::Windows, root, windows_executable()),
        content,
        built_in_plugins: join(PathStyle::Windows, root, "BuiltInPlugins"@),
        plugins,
    }
}

/// The content directory of a macOS application bundle `root`.
pub open spec fn bundle_content(root: Seq<char>) -> Seq<char> {
    let u = PathStyle::Unix;
    join(u, join(u, join(u, root, "Contents"@), "Resources"@), "content"@)
}

/// The paths of a macOS application bundle `root`, with the plugins below the
/// user's Documents directory.
pub open spec fn bundle_layout(root: Seq<char>, documents: Seq<char>) -> StudioPaths {
    let u = PathStyle::Unix;
    let contents = join(u, root, "Contents"@);
    StudioPaths {
        root,
        application: join(u, join(u, contents, "MacOS"@), "RobloxStudio"@),
        content: bundle_content(root),
        built_in_plugins: join(u, join(u, contents, "Resources"@), "BuiltInPlugins"@),
        plugins: join(u, join(u, documents, "Roblox"@), "Plugins"@),
    }
}

/// The Windows executable inside the version folder `root`.
pub fn executable_in(style: PathStyle, root: &str) -> (r: String)
    ensures
        r@ == join(style, root@, windows_executable()),
{
    join_path(style, root, "RobloxStudioBeta.exe")
}

/// The content directory of the macOS application bundle `root`.
pub fn content_in_bundle(root: &str) -> (r: String)
    ensures
        r@ == bundle_content(root@),
{
    let u = PathStyle::Unix;
    let contents = join_path(u, root, "Contents");
    let resources = join_path(u, contents.as_str(), "Resources");
    join_path(u, resources.as_str(), "content")
}

/// The user's plugin directory below the Windows home directory `home`.
pub fn plugins_below(style: PathStyle, home: &str) -> (r: String)
    ensures
        r@ == windows_plugins(style, home@),
{
    let a = join_path(style, home, "AppData");
    let b = join_path(style, a.as_str(), "Local");
    let c = join_path(style, b.as_str(), "Roblox");
    join_path(style, c.as_str(), "Plugins")
}

impl RobloxStudio {
    /// The installation whose version folder is `root`.
    pub(crate) fn in_version_folder(style: PathStyle, root: &str, plugins: String) -> (r: RobloxStudio)
        ensures
            r@ == version_layout(style, root@, plugins@),
    {
        RobloxStudio {
            content: join_path(style, root, "content"),
            application: executable_in(style, root),
            built_in_plugins: join_path(style, root, "BuiltInPlugins"),
            plugins,
            root: String::from_str(root),
        }
    }

    /// The installation whose content folder the registry names.
    pub(crate) fn from_registry_folders(root: String, content: String, plugins: String) -> (r: RobloxStudio)
        ensures
            r@ == registry_layout(root@, content@, plugins@),
    {
        let w = PathStyle::Windows;
        RobloxStudio {
            application: executable_in(w, root.as_str()),
            built_in_plugins: join_path(w, root.as_str(), "BuiltInPlugins"),
            content,
            plugins,
            root,
        }
    }

    /// The installation in the macOS application bundle `root`.
    pub(crate) fn in_bundle(root: &str, documents: &str) -> (r: RobloxStudio)
        ensures
            r@ == bundle_layout(root@, documents@),
    {
        let u = PathStyle::Unix;
        let contents = join_path(u, root, "Contents");
        let mac_os = join_path(u, contents.as_str(), "MacOS");
        let resources = join_path(u, contents.as_str(), "Resources");
        let roblox = join_path(u, documents, "Roblox");
        RobloxStudio {
            content: content_in_bundle(root),
            application: join_path(u, mac_os.as_str(), "RobloxStudio"),
            built_in_plugins: join_path(u, resources.as_str(), "BuiltInPlugins"),
            plugins: join_path(u, roblox.as_str(), "Plugins"),
            root: String::from_str(root),
        }
    }

    /// The directory the installation was found in. Its contents differ from
    /// platform to platform; the dedicated paths are to be preferred.
    #[must_use]
    pub fn root_path(&self) -> (r: &str)
        ensures
            r@ == self@.root,
    {
        self.root.as_str()
    }

    /// Path to the Roblox Studio executable.
    #[must_use]
    pub fn application_path(&self) -> (r: &str)
        ensures
            r@ == self@.application,
    {
        self.application.as_str()
    }

    /// Path to the content directory.
    #[must_use]
    pub fn content_path(&self) -> (r: &str)
        ensures
            r@ == self@.content,
    {
        self.content.as_str()
    }

    /// Path to the Roblox Studio executable, as an owned value; kept for older
    /// callers of what `application_path` now gives.
    #[must_use]
    pub fn exe_path(&self) -> (r: String)
        ensures
            r@ == self@.application,
    {
        self.application.clone()
    }

    /// Path to the built-in plugins directory.
    #[must_use]
    pub fn built_in_plugins_path(&self) -> (r: &str)
        ensures
            r@ == self@.built_in_plugins,
    {
        self.built_in_plugins.as_str()
    }

    /// Path to the user's plugin directory. It may not exist if the user has
    /// never opened it from Roblox Studio.
    #[must_use]
    pub fn plugins_path(&self) -> (r: &str)
        ensures
            r@ == self@.plugins,
    {
        self.plugins.as_str()
    }
}

} // verus!

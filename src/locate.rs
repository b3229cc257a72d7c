use vstd::prelude::*;

use crate::error::{Error, ErrorView};
use crate::path::{join, join_path, parent, parent_path, PathStyle};
use crate::studio::{
    bundle_content, bundle_layout, content_in_bundle, executable_in, plugins_below, registry_layout, version_layout,
    windows_plugins, RobloxStudio, StudioPaths,
};
use crate::text::{is_bridged_release, lower_of, names_bridge, trim_of, trimmed};

verus! {

/// The kind of host the search runs on; it decides where Roblox Studio is looked for.
#[derive(Clone, Copy, Debug, PartialEq, Eq, Structural)]
pub enum Platform {
    /// Found through the registry.
    Windows,
    /// Found as an application bundle.
    MacOs,
    /// Found on the Windows side when running under the Windows Subsystem for Linux.
    Linux,
    /// No way to find Roblox Studio is known.
    Unsupported,
}

/// The state of the override variable, `ROBLOX_STUDIO_PATH`.
#[derive(Clone, Debug, PartialEq, Eq)]
pub enum OverrideSetting {
    Unset,
    Text(String),
    /// Set, but to a value that is not valid Unicode.
    NotUnicode,
}

/// What the file system shows of a candidate installation directory.
#[derive(Clone, Debug, PartialEq, Eq)]
pub struct DirectoryReport {
    /// Whether the `content` directory the query named is a directory.
    pub content_is_dir: bool,
    /// The entries of the `Versions` directory the query named, in the order the
    /// file system listed them; `None` when it is not a directory or cannot be read.
    pub versions: Option<Vec<String>>,
}

/// What has been found out about the host so far. Each field answers one kind
/// of [`Query`] and stays `None` until it was asked.
#[derive(Clone, Debug, PartialEq, Eq)]
pub struct Findings {
    /// Answers [`Query::OverrideVariable`].
    pub override_setting: Option<OverrideSetting>,
    /// Answers [`Query::KernelRelease`]: the output of `uname -r`, `None` when it
    /// could not be had as text.
    pub release: Option<Option<String>>,
    /// Answers [`Query::HostUserName`]: the output of `cmd.exe /C echo %USERNAME%`,
    /// `None` when it could not be had as text.
    pub host_user: Option<Option<String>>,
    /// Answers [`Query::RegistryContentFolder`]: the `ContentFolder` value of the
    /// `Software\Roblox\RobloxStudio` key of the current user, or why it could not be read.
    pub registry_content: Option<Result<String, String>>,
    /// Answers [`Query::HomeDirectory`].
    pub home: Option<Option<String>>,
    /// Answers [`Query::DocumentsDirectory`].
    pub documents: Option<Option<String>>,
    /// Answers [`Query::InspectDirectory`].
    pub directory: Option<DirectoryReport>,
    /// Answers [`Query::InspectBundle`]: whether the content directory it named is a directory.
    pub bundle_content: Option<bool>,
    /// Answers [`Query::FindApplications`]: for each candidate, whether it is a file.
    pub applications: Option<Vec<bool>>,
}

/// A fact about the host that the search needs next.
#[derive(Clone, Debug, PartialEq, Eq)]
pub enum Query {
    OverrideVariable,
    KernelRelease,
    HostUserName,
    RegistryContentFolder,
    HomeDirectory,
    DocumentsDirectory,
    InspectDirectory { content: String, versions: String },
    InspectBundle { content: String },
    FindApplications { candidates: Vec<String> },
}

/// The next step of a search: a question for the host, or the outcome.
#[derive(Debug)]
pub enum Progress {
    Ask(Query),
    Done(Result<RobloxStudio, Error>),
}

pub enum OverrideView {
    Unset,
    Text(Seq<char>),
    NotUnicode,
}

pub struct DirectoryFacts {
    pub content_is_dir: bool,
    pub versions: Option<Seq<Seq<char>>>,
}

pub struct Facts {
    pub override_setting: Option<OverrideView>,
    pub release: Option<Option<Seq<char>>>,
    pub host_user: Option<Option<Seq<char>>>,
    pub registry_content: Option<Result<Seq<char>, Seq<char>>>,
    pub home: Option<Option<Seq<char>>>,
    pub documents: Option<Option<Seq<char>>>,
    pub directory: Option<DirectoryFacts>,
    pub bundle_content: Option<bool>,
    pub applications: Option<Seq<bool>>,
}

pub enum QueryView {
    OverrideVariable,
    KernelRelease,
    HostUserName,
    RegistryContentFolder,
    HomeDirectory,
    DocumentsDirectory,
    InspectDirectory { content: Seq<char>, versions: Seq<char> },
    InspectBundle { content: Seq<char> },
    FindApplications { candidates: Seq<Seq<char>> },
}

pub enum ProgressView {
    Ask(QueryView),
    Done(Result<StudioPaths, ErrorView>),
}

pub open spec fn text_view(o: Option<String>) -> Option<Seq<char>> {
    match o {
        Some(s) => Some(s@),
        None => None,
    }
}

pub open spec fn texts_view(v: Vec<String>) -> Seq<Seq<char>> {
    v@.map_values(|s: String| s@)
}

impl View for OverrideSetting {
    type V = OverrideView;

    open spec fn view(&self) -> OverrideView {
        match self {
            OverrideSetting::Unset => OverrideView::Unset,
            OverrideSetting::Text(s) => OverrideView::Text(s@),
            OverrideSetting::NotUnicode => OverrideView::NotUnicode,
        }
    }
}

impl View for DirectoryReport {
    type V = DirectoryFacts;

    open spec fn view(&self) -> DirectoryFacts {
        DirectoryFacts {
            content_is_dir: self.content_is_dir,
            versions: match self.versions {
                Some(v) => Some(texts_view(v)),
                None => None,
            },
        }
    }
}

impl View for Findings {
    type V = Facts;

    open spec fn view(&self) -> Facts {
        Facts {
            override_setting: match self.override_setting {
                Some(o) => Some(o@),
                None => None,
            },
            release: match self.release {
                Some(o) => Some(text_view(o)),
                None => None,
            },
            host_user: match self.host_user {
                Some(o) => Some(text_view(o)),
                None => None,
            },
            registry_content: match self.registry_content {
                Some(Ok(s)) => Some(Ok(s@)),
                Some(Err(e)) => Some(Err(e@)),
                None => None,
            },
            home: match self.home {
                Some(o) => Some(text_view(o)),
                None => None,
            },
            documents: match self.documents {
                Some(o) => Some(text_view(o)),
                None => None,
            },
            directory: match self.directory {
                Some(d) => Some(d@),
                None => None,
            },
            bundle_content: self.bundle_content,
            applications: match self.applications {
                Some(v) => Some(v@),
                None => None,
            },
        }
    }
}

impl View for Query {
    type V = QueryView;

    open spec fn view(&self) -> QueryView {
        match self {
            Query::OverrideVariable => QueryView::OverrideVariable,
            Query::KernelRelease => QueryView::KernelRelease,
            Query::HostUserName => QueryView::HostUserName,
            Query::RegistryContentFolder => QueryView::RegistryContentFolder,
            Query::HomeDirectory => QueryView::HomeDirectory,
            Query::DocumentsDirectory => QueryView::DocumentsDirectory,
            Query::InspectDirectory { content, versions } => QueryView::InspectDirectory {
                content: content@,
                versions: versions@,
            },
            Query::InspectBundle { content } => QueryView::InspectBundle { content: content@ },
            Query::FindApplications { candidates } => QueryView::FindApplications {
                candidates: texts_view(*candidates),
            },
        }
    }
}

impl View for Progress {
    type V = ProgressView;

    open spec fn view(&self) -> ProgressView {
        match self {
            Progress::Ask(q) => ProgressView::Ask(q@),
            Progress::Done(Ok(s)) => ProgressView::Done(Ok(s@)),
            Progress::Done(Err(e)) => ProgressView::Done(Err(e@)),
        }
    }
}

/// The path style of a platform's file system.
pub open spec fn style_of(platform: Platform) -> PathStyle {
    if platform == Platform::Windows {
        PathStyle::Windows
    } else {
        PathStyle::Unix
    }
}

/// The text is usable as a path: not empty and free of NUL characters.
pub open spec fn is_path_text(s: Seq<char>) -> bool {
    s.len() > 0 && forall|i: int| 0 <= i < s.len() ==> s[i] != '\0'
}

pub open spec fn invalid_path_message() -> Seq<char> {
    "could not convert environment variable `ROBLOX_STUDIO_PATH` to path (it is empty or holds a NUL character)"@
}

pub open spec fn not_unicode_message() -> Seq<char> {
    "could not convert environment variable `ROBLOX_STUDIO_PATH` to path (it is not valid Unicode)"@
}

/// Where Roblox Studio's application bundle is installed on macOS.
pub open spec fn bundle_root() -> Seq<char> {
    "/Applications/RobloxStudio.app"@
}

/// The Roblox directory in the AppData of a Windows user, as seen from the
/// Windows Subsystem for Linux.
pub open spec fn bridged_roblox_dir(user: Seq<char>) -> Seq<char> {
    let u = PathStyle::Unix;
    join(u, join(u, join(u, join(u, "/mnt/c/Users"@, user), "AppData"@), "Local"@), "Roblox"@)
}

/// The first index below `n` whose flag is set.
pub open spec fn first_marked(flags: Seq<bool>, n: int) -> Option<int>
    decreases n,
{
    if n <= 0 {
        None
    } else {
        match first_marked(flags, n - 1) {
            Some(i) => Some(i),
            None => if flags[n - 1] {
                Some(n - 1)
            } else {
                None
            },
        }
    }
}

pub open spec fn done_err(e: ErrorView) -> ProgressView {
    ProgressView::Done(Err(e))
}

/// The search in a Windows installation directory `root`: the version found
/// there directly, or the first entry of its `Versions` directory that holds
/// the executable.
pub open spec fn windows_directory(style: PathStyle, root: Seq<char>, f: Facts) -> ProgressView {
    match f.home {
        None => ProgressView::Ask(QueryView::HomeDirectory),
        Some(None) => done_err(ErrorView::PluginsDirectoryNotFound),
        Some(Some(home)) => match f.directory {
            None => ProgressView::Ask(
                QueryView::InspectDirectory {
                    content: join(style, root, "content"@),
                    versions: join(style, root, "Versions"@),
                },
            ),
            Some(d) => if d.content_is_dir {
                ProgressView::Done(Ok(version_layout(style, root, windows_plugins(style, home))))
            } else {
                match d.versions {
                    None => done_err(ErrorView::NotInstalled),
                    Some(entries) => match f.applications {
                        None => ProgressView::Ask(
                            QueryView::FindApplications {
                                candidates: entries.map_values(
                                    |e: Seq<char>| join(style, e, crate::studio::windows_executable()),
                                ),
                            },
                        ),
                        Some(flags) => {
                            let n = if flags.len() < entries.len() {
                                flags.len()
                            } else {
                                entries.len()
                            };
                            match first_marked(flags, n as int) {
                                None => done_err(ErrorView::NotInstalled),
                                Some(i) => ProgressView::Done(
                                    Ok(version_layout(style, entries[i], windows_plugins(style, home))),
                                ),
                            }
                        },
                    },
                }
            },
        },
    }
}

/// The search in a macOS application bundle `root`.
pub open spec fn bundle(root: Seq<char>, f: Facts) -> ProgressView {
    match f.documents {
        None => ProgressView::Ask(QueryView::DocumentsDirectory),
        Some(None) => done_err(ErrorView::DocumentsDirectoryNotFound),
        Some(Some(documents)) => ProgressView::Done(Ok(bundle_layout(root, documents))),
    }
}

/// The search through the registry of the current Windows user.
pub open spec fn registry(f: Facts) -> ProgressView {
    match f.registry_content {
        None => ProgressView::Ask(QueryView::RegistryContentFolder),
        Some(Err(cause)) => done_err(ErrorView::RegistryError(cause)),
        Some(Ok(content)) => match parent(PathStyle::Windows, content) {
            None => done_err(ErrorView::MalformedRegistry),
            Some(root) => match f.home {
                None => ProgressView::Ask(QueryView::HomeDirectory),
                Some(None) => done_err(ErrorView::PluginsDirectoryNotFound),
                Some(Some(home)) => ProgressView::Done(
                    Ok(registry_layout(root, content, windows_plugins(PathStyle::Windows, home))),
                ),
            },
        },
    }
}

/// Whether the host is known to be the Windows Subsystem for Linux.
pub open spec fn is_bridged(f: Facts) -> bool {
    f.release matches Some(Some(t)) && names_bridge(lower_of(t))
}

/// Where the search stops before it can go on under the Windows Subsystem for
/// Linux: it asks whether it runs there, and gives up when it does not.
pub open spec fn bridge_gate(f: Facts) -> Option<ProgressView> {
    match f.release {
        None => Some(ProgressView::Ask(QueryView::KernelRelease)),
        Some(None) => Some(done_err(ErrorView::PlatformNotSupported)),
        Some(Some(t)) => if names_bridge(lower_of(t)) {
            None
        } else {
            Some(done_err(ErrorView::PlatformNotSupported))
        },
    }
}

/// The search in a directory `root` that the override names as a macOS
/// application bundle: it holds the bundle's content directory, or nothing is
/// installed there.
pub open spec fn bundle_override(root: Seq<char>, f: Facts) -> ProgressView {
    match f.bundle_content {
        None => ProgressView::Ask(QueryView::InspectBundle { content: bundle_content(root) }),
        Some(false) => done_err(ErrorView::NotInstalled),
        Some(true) => bundle(root, f),
    }
}

/// The search in the directory `root` that the override names.
pub open spec fn from_directory(platform: Platform, root: Seq<char>, f: Facts) -> ProgressView {
    match platform {
        Platform::Windows => windows_directory(PathStyle::Windows, root, f),
        Platform::MacOs => bundle_override(root, f),
        Platform::Linux => match bridge_gate(f) {
            Some(p) => p,
            None => windows_directory(PathStyle::Unix, root, f),
        },
        Platform::Unsupported => done_err(ErrorView::PlatformNotSupported),
    }
}

/// The search where the platform usually installs Roblox Studio.
pub open spec fn native(platform: Platform, f: Facts) -> ProgressView {
    match platform {
        Platform::Windows => registry(f),
        Platform::MacOs => bundle(bundle_root(), f),
        Platform::Linux => match bridge_gate(f) {
            Some(p) => p,
            None => match f.host_user {
                None => ProgressView::Ask(QueryView::HostUserName),
                Some(None) => done_err(ErrorView::PlatformNotSupported),
                Some(Some(out)) => if trim_of(out).len() == 0 {
                    done_err(ErrorView::PlatformNotSupported)
                } else {
                    windows_directory(PathStyle::Unix, bridged_roblox_dir(trim_of(out)), f)
                },
            },
        },
        Platform::Unsupported => done_err(ErrorView::PlatformNotSupported),
    }
}

/// The whole search: the override first; where it is unset, the platform's own
/// place. An override that is set decides the outcome, success or failure.
pub open spec fn search(platform: Platform, f: Facts) -> ProgressView {
    match f.override_setting {
        None => ProgressView::Ask(QueryView::OverrideVariable),
        Some(OverrideView::Unset) => native(platform, f),
        Some(OverrideView::NotUnicode) => done_err(
            ErrorView::EnvironmentVariableError(not_unicode_message()),
        ),
        Some(OverrideView::Text(root)) => if is_path_text(root) {
            from_directory(platform, root, f)
        } else {
            done_err(ErrorView::EnvironmentVariableError(invalid_path_message()))
        },
    }
}

proof fn lemma_first_marked_stable(flags: Seq<bool>, m: int, n: int)
    requires
        0 <= m <= n,
        first_marked(flags, m) is Some,
    ensures
        first_marked(flags, n) == first_marked(flags, m),
    decreases n - m,
{
    if m < n {
        lemma_first_marked_stable(flags, m, n - 1);
    }
}

/// The first index below `n` whose flag is set.
fn first_marked_index(flags: &Vec<bool>, n: usize) -> (r: Option<usize>)
    requires
        n <= flags@.len(),
    ensures
        r matches Some(i) ==> i < n && first_marked(flags@, n as int) == Some(i as int),
        r is None ==> first_marked(flags@, n as int) is None,
{
    let mut i: usize = 0;
    while i < n
        invariant
            i <= n <= flags@.len(),
            first_marked(flags@, i as int) is None,
        decreases n - i,
    {
        if flags[i] {
            proof {
                lemma_first_marked_stable(flags@, i + 1, n as int);
            }
            return Some(i);
        }
        i = i + 1;
    }
    None
}

/// The path style of a platform's file system.
pub fn path_style(platform: Platform) -> (r: PathStyle)
    ensures
        r == style_of(platform),
{
    match platform {
        Platform::Windows => PathStyle::Windows,
        _ => PathStyle::Unix,
    }
}

/// Whether a value of the override variable is usable as a path: not empty and
/// free of NUL characters.
pub fn is_path_value(s: &str) -> (r: bool)
    ensures
        r == is_path_text(s@),
{
    let n = s.unicode_len();
    if n == 0 {
        return false;
    }
    let mut i: usize = 0;
    while i < n
        invariant
            i <= n,
            n == s@.len(),
            forall|k: int| 0 <= k < i ==> s@[k] != '\0',
        decreases n - i,
    {
        if s.get_char(i) == '\0' {
            return false;
        }
        i = i + 1;
    }
    true
}

/// The name of the variable that overrides where Roblox Studio is looked for.
pub fn override_variable() -> (r: &'static str)
    ensures
        r@ == "ROBLOX_STUDIO_PATH"@,
{
    "ROBLOX_STUDIO_PATH"
}

/// The Roblox directory in the AppData of the Windows user `user`, as seen
/// from the Windows Subsystem for Linux.
pub fn bridged_roblox_directory(user: &str) -> (r: String)
    ensures
        r@ == bridged_roblox_dir(user@),
{
    let u = PathStyle::Unix;
    let a = join_path(u, "/mnt/c/Users", user);
    let b = join_path(u, a.as_str(), "AppData");
    let c = join_path(u, b.as_str(), "Local");
    join_path(u, c.as_str(), "Roblox")
}

fn done_error(e: Error) -> (r: Progress)
    ensures
        r@ == done_err(e@),
{
    Progress::Done(Err(e))
}

impl RobloxStudio {
    /// The user's plugin directory, from the home directory that was found.
    fn locate_plugins_on_windows(style: PathStyle, home: &Option<String>) -> (r: Result<String, Error>)
        ensures
            home matches Some(h) ==> (r matches Ok(p) && p@ == windows_plugins(style, h@)),
            home is None ==> r == Err::<String, Error>(Error::PluginsDirectoryNotFound),
    {
        match home {
            Some(h) => Ok(plugins_below(style, h.as_str())),
            None => Err(Error::PluginsDirectoryNotFound),
        }
    }

    /// The search in a Windows installation directory `root`, as
    /// `windows_directory` describes it.
    fn locate_from_windows_directory(style: PathStyle, root: &str, f: &Findings) -> (r: Progress)
        ensures
            r@ == windows_directory(style, root@, f@),
    {
        let home = match &f.home {
            None => return Progress::Ask(Query::HomeDirectory),
            Some(h) => h,
        };
        let plugins = match Self::locate_plugins_on_windows(style, home) {
            Ok(p) => p,
            Err(e) => return done_error(e),
        };
        let d = match &f.directory {
            None => {
                return Progress::Ask(
                    Query::InspectDirectory {
                        content: join_path(style, root, "content"),
                        versions: join_path(style, root, "Versions"),
                    },
                );
            },
            Some(d) => d,
        };
        if d.content_is_dir {
            return Progress::Done(Ok(RobloxStudio::in_version_folder(style, root, plugins)));
        }
        let entries = match &d.versions {
            None => return done_error(Error::NotInstalled),
            Some(v) => v,
        };
        let flags = match &f.applications {
            None => {
                let mut candidates: Vec<String> = Vec::new();
                let mut i: usize = 0;
                while i < entries.len()
                    invariant
                        i <= entries@.len(),
                        candidates@.len() == i,
                        forall|k: int|
                            0 <= k < i ==> candidates@[k]@ == join(
                                style,
                                entries@[k]@,
                                crate::studio::windows_executable(),
                            ),
                    decreases entries@.len() - i,
                {
                    candidates.push(executable_in(style, entries[i].as_str()));
                    i = i + 1;
                }
                let ghost ev = texts_view(*entries);
                assert(texts_view(candidates) =~= ev.map_values(
                    |e: Seq<char>| join(style, e, crate::studio::windows_executable()),
                ));
                return Progress::Ask(Query::FindApplications { candidates });
            },
            Some(flags) => flags,
        };
        let n = if flags.len() < entries.len() {
            flags.len()
        } else {
            entries.len()
        };
        match first_marked_index(flags, n) {
            None => done_error(Error::NotInstalled),
            Some(i) => Progress::Done(
                Ok(RobloxStudio::in_version_folder(style, entries[i].as_str(), plugins)),
            ),
        }
    }

    /// The search in the macOS application bundle `root`, as `bundle` describes it.
    fn locate_in_bundle(root: &str, f: &Findings) -> (r: Progress)
        ensures
            r@ == bundle(root@, f@),
    {
        match &f.documents {
            None => Progress::Ask(Query::DocumentsDirectory),
            Some(None) => done_error(Error::DocumentsDirectoryNotFound),
            Some(Some(documents)) => Progress::Done(
                Ok(RobloxStudio::in_bundle(root, documents.as_str())),
            ),
        }
    }

    /// The search through the registry, as `registry` describes it.
    fn locate_through_registry(f: &Findings) -> (r: Progress)
        ensures
            r@ == registry(f@),
    {
        let content = match &f.registry_content {
            None => return Progress::Ask(Query::RegistryContentFolder),
            Some(Err(cause)) => return done_error(Error::RegistryError(cause.clone())),
            Some(Ok(content)) => content,
        };
        let root = match parent_path(PathStyle::Windows, content.as_str()) {
            None => return done_error(Error::MalformedRegistry),
            Some(root) => root,
        };
        let home = match &f.home {
            None => return Progress::Ask(Query::HomeDirectory),
            Some(h) => h,
        };
        match Self::locate_plugins_on_windows(PathStyle::Windows, home) {
            Err(e) => done_error(e),
            Ok(plugins) => Progress::Done(
                Ok(RobloxStudio::from_registry_folders(root, content.clone(), plugins)),
            ),
        }
    }

    /// Where the search stops before going on under the Windows Subsystem for
    /// Linux, as `bridge_gate` describes it; `None` when it goes on.
    fn is_wsl(f: &Findings) -> (r: Option<Progress>)
        ensures
            r matches Some(p) ==> bridge_gate(f@) == Some(p@),
            r is None ==> bridge_gate(f@) is None,
    {
        match &f.release {
            None => Some(Progress::Ask(Query::KernelRelease)),
            Some(None) => Some(done_error(Error::PlatformNotSupported)),
            Some(Some(text)) => if is_bridged_release(text.as_str()) {
                None
            } else {
                Some(done_error(Error::PlatformNotSupported))
            },
        }
    }

    /// The search in the directory `root` that the override names, as
    /// `from_directory` describes it.
    fn locate_from_directory(platform: Platform, root: &str, f: &Findings) -> (r: Progress)
        ensures
            r@ == from_directory(platform, root@, f@),
    {
        match platform {
            Platform::Windows => Self::locate_from_windows_directory(PathStyle::Windows, root, f),
            Platform::MacOs => match f.bundle_content {
                None => Progress::Ask(Query::InspectBundle { content: content_in_bundle(root) }),
                Some(false) => done_error(Error::NotInstalled),
                Some(true) => Self::locate_in_bundle(root, f),
            },
            Platform::Linux => match Self::is_wsl(f) {
                Some(p) => p,
                None => Self::locate_from_windows_directory(PathStyle::Unix, root, f),
            },
            Platform::Unsupported => done_error(Error::PlatformNotSupported),
        }
    }

    /// The search where the platform usually installs Roblox Studio, as
    /// `native` describes it.
    fn locate_target_specific(platform: Platform, f: &Findings) -> (r: Progress)
        ensures
            r@ == native(platform, f@),
    {
        match platform {
            Platform::Windows => Self::locate_through_registry(f),
            Platform::MacOs => {
                let root = "/Applications/RobloxStudio.app";
                Self::locate_in_bundle(root, f)
            },
            Platform::Linux => match Self::is_wsl(f) {
                Some(p) => p,
                None => match &f.host_user {
                    None => Progress::Ask(Query::HostUserName),
                    Some(None) => done_error(Error::PlatformNotSupported),
                    Some(Some(out)) => {
                        let user = trimmed(out.as_str());
                        if user.as_str().unicode_len() == 0 {
                            return done_error(Error::PlatformNotSupported);
                        }
                        let root = bridged_roblox_directory(user.as_str());
                        Self::locate_from_windows_directory(PathStyle::Unix, root.as_str(), f)
                    },
                },
            },
            Platform::Unsupported => done_error(Error::PlatformNotSupported),
        }
    }

    /// The override's part of the search: `None` when the variable is unset.
    fn locate_from_env(platform: Platform, setting: &OverrideSetting, f: &Findings) -> (r: Option<Progress>)
        requires
            f@.override_setting == Some(setting@),
        ensures
            r is None <==> setting@ is Unset,
            r matches Some(p) ==> search(platform, f@) == p@,
    {
        match setting {
            OverrideSetting::Unset => None,
            OverrideSetting::NotUnicode => {
                let m = String::from_str(
                    "could not convert environment variable `ROBLOX_STUDIO_PATH` to path (it is not valid Unicode)",
                );
                Some(done_error(Error::EnvironmentVariableError(m)))
            },
            OverrideSetting::Text(root) => if is_path_value(root.as_str()) {
                Some(Self::locate_from_directory(platform, root.as_str(), f))
            } else {
                let m = String::from_str(
                    "could not convert environment variable `ROBLOX_STUDIO_PATH` to path (it is empty or holds a NUL character)",
                );
                Some(done_error(Error::EnvironmentVariableError(m)))
            },
        }
    }

    /// Decides the next step of the search for Roblox Studio on `platform`,
    /// from what has been found out about the host so far: a question to answer
    /// into `findings`, or the outcome. The override variable is read first.
    /// Where it is set, its directory alone is searched and any failure there is
    /// the outcome; where it is unset, the platform's usual place is searched.
    /// A host answers each question and asks again until the search is done.
    pub fn locate(platform: Platform, findings: &Findings) -> (r: Progress)
        ensures
            r@ == search(platform, findings@),
    {
        match &findings.override_setting {
            None => Progress::Ask(Query::OverrideVariable),
            Some(setting) => match Self::locate_from_env(platform, setting, findings) {
                Some(p) => p,
                None => Self::locate_target_specific(platform, findings),
            },
        }
    }
}

} // verus!

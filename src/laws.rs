use vstd::prelude::*;

use crate::error::ErrorView;
use crate::locate::{
    first_marked, is_bridged, is_path_text, search, style_of, Facts, Findings, OverrideView,
    Platform, ProgressView,
};
use crate::path::join;
use crate::studio::{version_layout, windows_executable, windows_plugins, StudioPaths};
use crate::text::{lower_of, names_bridge, trim_of};

verus! {

/// The platforms that search a directory for a Windows installation: Windows
/// itself, and Linux once it is known to be the Windows Subsystem for Linux.
pub open spec fn searches_windows_layout(platform: Platform, f: Facts) -> bool {
    platform == Platform::Windows || (platform == Platform::Linux && is_bridged(f))
}

proof fn lemma_none_marked(flags: Seq<bool>, n: int)
    requires
        0 <= n <= flags.len(),
        forall|j: int| 0 <= j < n ==> !flags[j],
    ensures
        first_marked(flags, n) is None,
    decreases n,
{
    if n > 0 {
        lemma_none_marked(flags, n - 1);
    }
}

proof fn lemma_only_marked(flags: Seq<bool>, i: int, n: int)
    requires
        0 <= i < n <= flags.len(),
        flags[i],
        forall|j: int| 0 <= j < i ==> !flags[j],
    ensures
        first_marked(flags, n) == Some(i),
    decreases n,
{
    if n == i + 1 {
        lemma_none_marked(flags, i);
    } else {
        lemma_only_marked(flags, i, n - 1);
    }
}

/// An override that names a directory holding `content` gives the installation
/// in that very directory: its content directory is `content` below it and its
/// executable is the Windows executable in it.
pub proof fn lemma_override_direct_installation(platform: Platform, f: Facts, root: Seq<char>, home: Seq<char>)
    requires
        searches_windows_layout(platform, f),
        f.override_setting == Some(OverrideView::Text(root)),
        is_path_text(root),
        f.home == Some(Some(home)),
        f.directory matches Some(d) && d.content_is_dir,
    ensures
        search(platform, f) matches ProgressView::Done(Ok(p)) && p.root == root && p.content == join(
            style_of(platform),
            root,
            "content"@,
        ) && p.application == join(style_of(platform), root, windows_executable()),
{
}

/// An override that names a container of versions, where exactly one entry holds
/// the executable, gives the installation in that entry.
pub proof fn lemma_override_single_version(
    platform: Platform,
    f: Facts,
    root: Seq<char>,
    home: Seq<char>,
    entries: Seq<Seq<char>>,
    flags: Seq<bool>,
    i: int,
)
    requires
        searches_windows_layout(platform, f),
        f.override_setting == Some(OverrideView::Text(root)),
        is_path_text(root),
        f.home == Some(Some(home)),
        f.directory matches Some(d) && !d.content_is_dir && d.versions == Some(entries),
        f.applications == Some(flags),
        flags.len() == entries.len(),
        0 <= i < entries.len(),
        flags[i],
        forall|j: int| 0 <= j < flags.len() && j != i ==> !flags[j],
    ensures
        search(platform, f) == ProgressView::Done(
            Ok(version_layout(style_of(platform), entries[i], windows_plugins(style_of(platform), home))),
        ),
{
    lemma_only_marked(flags, i, flags.len() as int);
}

/// An override that names a container of versions none of which holds the
/// executable finds nothing.
pub proof fn lemma_override_no_version(
    platform: Platform,
    f: Facts,
    root: Seq<char>,
    home: Seq<char>,
    entries: Seq<Seq<char>>,
    flags: Seq<bool>,
)
    requires
        searches_windows_layout(platform, f),
        f.override_setting == Some(OverrideView::Text(root)),
        is_path_text(root),
        f.home == Some(Some(home)),
        f.directory matches Some(d) && !d.content_is_dir && d.versions == Some(entries),
        f.applications == Some(flags),
        flags.len() == entries.len(),
        forall|j: int| 0 <= j < flags.len() ==> !flags[j],
    ensures
        search(platform, f) == ProgressView::Done(Err(ErrorView::NotInstalled)),
{
    lemma_none_marked(flags, flags.len() as int);
}

/// An override that is set but is no usable path fails with an
/// `EnvironmentVariableError` on every platform, whatever else is known of the
/// host: the usual place is never searched.
pub proof fn lemma_unusable_override(platform: Platform, other: Platform, f: Facts, g: Facts)
    requires
        f.override_setting == g.override_setting,
        f.override_setting matches Some(o) && (o is NotUnicode || (o matches OverrideView::Text(
            t,
        ) && !is_path_text(t))),
    ensures
        search(platform, f) == search(other, g),
        search(platform, f) matches ProgressView::Done(Err(e)) && e is EnvironmentVariableError,
{
}

/// Without an override, a platform with no known way to find Roblox Studio
/// reports that it is not supported.
pub proof fn lemma_unsupported_without_override(f: Facts)
    requires
        f.override_setting == Some(OverrideView::Unset),
    ensures
        search(Platform::Unsupported, f) == ProgressView::Done(Err(ErrorView::PlatformNotSupported)),
{
}

/// The search is a function of what was found out: findings with the same
/// contents lead to the same step, and so to the same installation.
pub proof fn lemma_search_repeats(platform: Platform, a: Findings, b: Findings)
    requires
        a@ == b@,
    ensures
        search(platform, a@) == search(platform, b@),
{
}

/// Without an override on Windows, a registry key or value that cannot be read
/// ends the search with a `RegistryError` holding the cause; the home directory
/// is not asked for.
pub proof fn lemma_registry_unreadable(f: Facts, cause: Seq<char>)
    requires
        f.override_setting == Some(OverrideView::Unset),
        f.registry_content == Some(Err::<Seq<char>, Seq<char>>(cause)),
    ensures
        search(Platform::Windows, f) == ProgressView::Done(
            Err::<StudioPaths, ErrorView>(ErrorView::RegistryError(cause)),
        ),
{
}

/// On Linux, a kernel release text without a marker of the Windows Subsystem
/// for Linux ends the search as not supported, with or without an override; the
/// Windows user name is not asked for.
pub proof fn lemma_release_without_marker(f: Facts, release: Seq<char>)
    requires
        f.override_setting matches Some(o) && (o is Unset || (o matches OverrideView::Text(t)
            && is_path_text(t))),
        f.release == Some(Some(release)),
        !names_bridge(lower_of(release)),
    ensures
        search(Platform::Linux, f) == ProgressView::Done(
            Err::<StudioPaths, ErrorView>(ErrorView::PlatformNotSupported),
        ),
{
}

/// On macOS, an override naming a directory without the bundle's content
/// directory finds nothing.
pub proof fn lemma_override_not_a_bundle(f: Facts, root: Seq<char>)
    requires
        f.override_setting == Some(OverrideView::Text(root)),
        is_path_text(root),
        f.bundle_content == Some(false),
    ensures
        search(Platform::MacOs, f) == ProgressView::Done(
            Err::<StudioPaths, ErrorView>(ErrorView::NotInstalled),
        ),
{
}

/// Under the Windows Subsystem for Linux without an override, a Windows user
/// name that is empty once trimmed ends the search as not supported.
pub proof fn lemma_empty_host_user(f: Facts, out: Seq<char>)
    requires
        f.override_setting == Some(OverrideView::Unset),
        is_bridged(f),
        f.host_user == Some(Some(out)),
        trim_of(out).len() == 0,
    ensures
        search(Platform::Linux, f) == ProgressView::Done(
            Err::<StudioPaths, ErrorView>(ErrorView::PlatformNotSupported),
        ),
{
}

} // verus!

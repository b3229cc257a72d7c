use roblox_install::locate::{
    bridged_roblox_directory, is_path_value, override_variable, path_style, DirectoryReport, Findings, OverrideSetting,
    Platform, Progress, Query,
};
use roblox_install::path::{join_path, parent_path, PathStyle};
use roblox_install::studio::{executable_in, plugins_below};
use roblox_install::text::{contains_text, is_bridged_release, mentions_bridge_marker};
use roblox_install::{Error, RobloxStudio};

const WSL_RELEASE: &str = "5.15.90.1-microsoft-standard-WSL2";

/// A host whose answers are fixed in advance.
#[derive(Clone, Default)]
struct Host {
    setting: Option<String>,
    not_unicode: bool,
    release: Option<String>,
    user: Option<String>,
    registry: Option<Result<String, String>>,
    home: Option<String>,
    documents: Option<String>,
    dirs: Vec<String>,
    files: Vec<String>,
    listings: Vec<(String, Vec<String>)>,
}

fn empty_findings() -> Findings {
    Findings {
        override_setting: None,
        release: None,
        host_user: None,
        registry_content: None,
        home: None,
        documents: None,
        directory: None,
        bundle_content: None,
        applications: None,
    }
}

fn run(platform: Platform, host: &Host) -> (Result<RobloxStudio, Error>, Vec<Query>) {
    let mut findings = empty_findings();
    let mut asked = Vec::new();
    loop {
        match RobloxStudio::locate(platform, &findings) {
            Progress::Done(r) => return (r, asked),
            Progress::Ask(q) => {
                asked.push(q.clone());
                match q {
                    Query::OverrideVariable => {
                        findings.override_setting = Some(if host.not_unicode {
                            OverrideSetting::NotUnicode
                        } else {
                            match &host.setting {
                                Some(s) => OverrideSetting::Text(s.clone()),
                                None => OverrideSetting::Unset,
                            }
                        })
                    }
                    Query::KernelRelease => findings.release = Some(host.release.clone()),
                    Query::HostUserName => findings.host_user = Some(host.user.clone()),
                    Query::RegistryContentFolder => {
                        findings.registry_content = Some(
                            host.registry
                                .clone()
                                .unwrap_or(Err("The system cannot find the file specified.".to_string())),
                        )
                    }
                    Query::HomeDirectory => findings.home = Some(host.home.clone()),
                    Query::DocumentsDirectory => findings.documents = Some(host.documents.clone()),
                    Query::InspectDirectory { content, versions } => {
                        let listing = host
                            .listings
                            .iter()
                            .find(|(d, _)| *d == versions)
                            .map(|(_, v)| v.clone());
                        findings.directory = Some(DirectoryReport {
                            content_is_dir: host.dirs.contains(&content),
                            versions: listing,
                        })
                    }
                    Query::InspectBundle { content } => {
                        findings.bundle_content = Some(host.dirs.contains(&content))
                    }
                    Query::FindApplications { candidates } => {
                        findings.applications =
                            Some(candidates.iter().map(|c| host.files.contains(c)).collect())
                    }
                }
            }
        }
    }
}

fn wsl_host() -> Host {
    Host {
        release: Some(WSL_RELEASE.to_string()),
        home: Some("/home/ana".to_string()),
        ..Host::default()
    }
}

#[test]
fn override_direct_installation() {
    let mut host = wsl_host();
    host.setting = Some("/tmp/fakestudio".to_string());
    host.dirs.push("/tmp/fakestudio/content".to_string());
    host.files.push("/tmp/fakestudio/RobloxStudioBeta.exe".to_string());
    let (r, _) = run(Platform::Linux, &host);
    let studio = r.unwrap();
    assert_eq!(studio.application_path(), "/tmp/fakestudio/RobloxStudioBeta.exe");
    assert_eq!(studio.content_path(), "/tmp/fakestudio/content");
    assert_eq!(studio.built_in_plugins_path(), "/tmp/fakestudio/BuiltInPlugins");
    assert_eq!(studio.plugins_path(), "/home/ana/AppData/Local/Roblox/Plugins");
    assert_eq!(studio.root_path(), "/tmp/fakestudio");
    assert_eq!(studio.exe_path(), "/tmp/fakestudio/RobloxStudioBeta.exe".to_string());
}

#[test]
fn override_versions_container() {
    let mut host = wsl_host();
    host.setting = Some("/tmp/fakestudio".to_string());
    host.listings.push((
        "/tmp/fakestudio/Versions".to_string(),
        vec!["/tmp/fakestudio/Versions/v1".to_string()],
    ));
    host.files.push("/tmp/fakestudio/Versions/v1/RobloxStudioBeta.exe".to_string());
    let (r, _) = run(Platform::Linux, &host);
    let studio = r.unwrap();
    assert_eq!(studio.root_path(), "/tmp/fakestudio/Versions/v1");
    assert_eq!(studio.content_path(), "/tmp/fakestudio/Versions/v1/content");
    assert_eq!(studio.application_path(), "/tmp/fakestudio/Versions/v1/RobloxStudioBeta.exe");
}

#[test]
fn versions_container_takes_first_valid_entry() {
    let mut host = wsl_host();
    host.setting = Some("/r".to_string());
    host.listings.push((
        "/r/Versions".to_string(),
        vec!["/r/Versions/a".to_string(), "/r/Versions/b".to_string(), "/r/Versions/c".to_string()],
    ));
    host.files.push("/r/Versions/b/RobloxStudioBeta.exe".to_string());
    host.files.push("/r/Versions/c/RobloxStudioBeta.exe".to_string());
    let (r, _) = run(Platform::Linux, &host);
    assert_eq!(r.unwrap().root_path(), "/r/Versions/b");
}

#[test]
fn versions_container_without_valid_entry() {
    let mut host = wsl_host();
    host.setting = Some("/tmp/fakestudio".to_string());
    host.listings.push((
        "/tmp/fakestudio/Versions".to_string(),
        vec!["/tmp/fakestudio/Versions/v1".to_string(), "/tmp/fakestudio/Versions/v2".to_string()],
    ));
    let (r, _) = run(Platform::Linux, &host);
    assert_eq!(r.unwrap_err(), Error::NotInstalled);
}

#[test]
fn directory_of_neither_shape() {
    let mut host = wsl_host();
    host.setting = Some("/tmp/empty".to_string());
    let (r, _) = run(Platform::Linux, &host);
    assert_eq!(r.unwrap_err(), Error::NotInstalled);
}

#[test]
fn override_with_nul_is_rejected_without_native_search() {
    let mut host = wsl_host();
    host.setting = Some("/tmp/a\0b".to_string());
    for platform in [Platform::Windows, Platform::MacOs, Platform::Linux, Platform::Unsupported] {
        let (r, asked) = run(platform, &host);
        assert!(matches!(r, Err(Error::EnvironmentVariableError(_))));
        assert_eq!(asked, vec![Query::OverrideVariable]);
    }
}

#[test]
fn override_empty_or_not_unicode_is_rejected() {
    let mut host = wsl_host();
    host.setting = Some(String::new());
    let (r, _) = run(Platform::Windows, &host);
    assert!(matches!(r, Err(Error::EnvironmentVariableError(_))));
    host.not_unicode = true;
    let (r, _) = run(Platform::Windows, &host);
    let e = r.unwrap_err();
    assert!(matches!(e, Error::EnvironmentVariableError(_)));
    assert!(e.message().starts_with("Environment variable misconfigured: could not convert"));
}

#[test]
fn unsupported_platform_without_override() {
    let (r, asked) = run(Platform::Unsupported, &Host::default());
    assert_eq!(r.unwrap_err(), Error::PlatformNotSupported);
    assert_eq!(asked, vec![Query::OverrideVariable]);
}

#[test]
fn unsupported_platform_with_override() {
    let host = Host { setting: Some("/opt/studio".to_string()), ..Host::default() };
    let (r, _) = run(Platform::Unsupported, &host);
    assert_eq!(r.unwrap_err(), Error::PlatformNotSupported);
}

#[test]
fn repeated_search_gives_same_installation() {
    let mut host = wsl_host();
    host.setting = Some("/tmp/fakestudio".to_string());
    host.dirs.push("/tmp/fakestudio/content".to_string());
    let (a, qa) = run(Platform::Linux, &host);
    let (b, qb) = run(Platform::Linux, &host);
    let (a, b) = (a.unwrap(), b.unwrap());
    assert_eq!(qa, qb);
    assert_eq!(a.root_path(), b.root_path());
    assert_eq!(a.application_path(), b.application_path());
    assert_eq!(a.content_path(), b.content_path());
    assert_eq!(a.built_in_plugins_path(), b.built_in_plugins_path());
    assert_eq!(a.plugins_path(), b.plugins_path());
}

#[test]
fn registry_key_missing() {
    let host = Host { home: Some("C:\\Users\\ana".to_string()), ..Host::default() };
    let (r, _) = run(Platform::Windows, &host);
    assert_eq!(
        r.unwrap_err(),
        Error::RegistryError("The system cannot find the file specified.".to_string())
    );
}

#[test]
fn registry_content_folder() {
    let host = Host {
        registry: Some(Ok("C:\\Roblox\\Versions\\v9\\content".to_string())),
        home: Some("C:\\Users\\ana".to_string()),
        ..Host::default()
    };
    let (r, _) = run(Platform::Windows, &host);
    let studio = r.unwrap();
    assert_eq!(studio.root_path(), "C:\\Roblox\\Versions\\v9");
    assert_eq!(studio.content_path(), "C:\\Roblox\\Versions\\v9\\content");
    assert_eq!(studio.application_path(), "C:\\Roblox\\Versions\\v9\\RobloxStudioBeta.exe");
    assert_eq!(studio.built_in_plugins_path(), "C:\\Roblox\\Versions\\v9\\BuiltInPlugins");
    assert_eq!(studio.plugins_path(), "C:\\Users\\ana\\AppData\\Local\\Roblox\\Plugins");
}

#[test]
fn registry_content_folder_relative() {
    let host = Host {
        registry: Some(Ok("content".to_string())),
        home: Some("C:\\Users\\ana".to_string()),
        ..Host::default()
    };
    let (r, _) = run(Platform::Windows, &host);
    let studio = r.unwrap();
    assert_eq!(studio.root_path(), "");
    assert_eq!(studio.application_path(), "RobloxStudioBeta.exe");
    assert_eq!(studio.content_path(), "content");
}

#[test]
fn registry_content_folder_without_parent() {
    let host = Host {
        registry: Some(Ok("C:\\".to_string())),
        home: Some("C:\\Users\\ana".to_string()),
        ..Host::default()
    };
    let (r, _) = run(Platform::Windows, &host);
    assert_eq!(r.unwrap_err(), Error::MalformedRegistry);
}

#[test]
fn registry_without_home_directory() {
    let host = Host { registry: Some(Ok("C:\\Roblox\\content".to_string())), ..Host::default() };
    let (r, _) = run(Platform::Windows, &host);
    assert_eq!(r.unwrap_err(), Error::PluginsDirectoryNotFound);
}

#[test]
fn windows_override_uses_backslashes() {
    let host = Host {
        setting: Some("D:\\Studio".to_string()),
        home: Some("C:\\Users\\ana".to_string()),
        dirs: vec!["D:\\Studio\\content".to_string()],
        ..Host::default()
    };
    let (r, asked) = run(Platform::Windows, &host);
    assert_eq!(r.unwrap().application_path(), "D:\\Studio\\RobloxStudioBeta.exe");
    assert!(!asked.contains(&Query::RegistryContentFolder));
}

#[test]
fn bridged_release_without_marker() {
    let host = Host {
        release: Some("6.8.0-45-generic\n".to_string()),
        user: Some("ana\r\n".to_string()),
        ..Host::default()
    };
    let (r, asked) = run(Platform::Linux, &host);
    assert_eq!(r.unwrap_err(), Error::PlatformNotSupported);
    assert!(!asked.contains(&Query::HostUserName));
}

#[test]
fn bridged_release_unavailable() {
    let (r, _) = run(Platform::Linux, &Host::default());
    assert_eq!(r.unwrap_err(), Error::PlatformNotSupported);
}

#[test]
fn bridged_native_search() {
    let mut host = wsl_host();
    host.user = Some("ana\r\n".to_string());
    host.listings.push((
        "/mnt/c/Users/ana/AppData/Local/Roblox/Versions".to_string(),
        vec!["/mnt/c/Users/ana/AppData/Local/Roblox/Versions/version-1".to_string()],
    ));
    host.files
        .push("/mnt/c/Users/ana/AppData/Local/Roblox/Versions/version-1/RobloxStudioBeta.exe".to_string());
    let (r, _) = run(Platform::Linux, &host);
    let studio = r.unwrap();
    assert_eq!(studio.root_path(), "/mnt/c/Users/ana/AppData/Local/Roblox/Versions/version-1");
    assert_eq!(studio.plugins_path(), "/home/ana/AppData/Local/Roblox/Plugins");
}

#[test]
fn bridged_user_name_unavailable() {
    let (r, _) = run(Platform::Linux, &wsl_host());
    assert_eq!(r.unwrap_err(), Error::PlatformNotSupported);
}

#[test]
fn windows_directory_without_home() {
    let host = Host {
        release: Some(WSL_RELEASE.to_string()),
        setting: Some("/tmp/fakestudio".to_string()),
        dirs: vec!["/tmp/fakestudio/content".to_string()],
        ..Host::default()
    };
    let (r, _) = run(Platform::Linux, &host);
    assert_eq!(r.unwrap_err(), Error::PluginsDirectoryNotFound);
}

#[test]
fn mac_bundle() {
    let host = Host { documents: Some("/Users/ana/Documents".to_string()), ..Host::default() };
    let (r, _) = run(Platform::MacOs, &host);
    let studio = r.unwrap();
    assert_eq!(studio.root_path(), "/Applications/RobloxStudio.app");
    assert_eq!(studio.application_path(), "/Applications/RobloxStudio.app/Contents/MacOS/RobloxStudio");
    assert_eq!(studio.content_path(), "/Applications/RobloxStudio.app/Contents/Resources/content");
    assert_eq!(
        studio.built_in_plugins_path(),
        "/Applications/RobloxStudio.app/Contents/Resources/BuiltInPlugins"
    );
    assert_eq!(studio.plugins_path(), "/Users/ana/Documents/Roblox/Plugins");
}

#[test]
fn mac_without_documents() {
    let (r, _) = run(Platform::MacOs, &Host::default());
    assert_eq!(r.unwrap_err(), Error::DocumentsDirectoryNotFound);
}

#[test]
fn mac_override_bundle() {
    let host = Host {
        setting: Some("/Users/ana/Studio.app/".to_string()),
        documents: Some("/Users/ana/Documents".to_string()),
        dirs: vec!["/Users/ana/Studio.app/Contents/Resources/content".to_string()],
        ..Host::default()
    };
    let (r, _) = run(Platform::MacOs, &host);
    assert_eq!(r.unwrap().application_path(), "/Users/ana/Studio.app/Contents/MacOS/RobloxStudio");
}

#[test]
fn mac_override_not_a_bundle() {
    let host = Host {
        setting: Some("/tmp/nothing-here".to_string()),
        documents: Some("/Users/ana/Documents".to_string()),
        ..Host::default()
    };
    let (r, asked) = run(Platform::MacOs, &host);
    assert_eq!(r.unwrap_err(), Error::NotInstalled);
    assert!(asked.contains(&Query::InspectBundle {
        content: "/tmp/nothing-here/Contents/Resources/content".to_string()
    }));
}

#[test]
fn bridged_user_name_empty() {
    let mut host = wsl_host();
    host.user = Some(" \r\n".to_string());
    host.dirs.push("/mnt/c/Users/AppData/Local/Roblox/content".to_string());
    let (r, _) = run(Platform::Linux, &host);
    assert_eq!(r.unwrap_err(), Error::PlatformNotSupported);
}

#[test]
fn join_rules() {
    assert_eq!(join_path(PathStyle::Unix, "/a", "b"), "/a/b");
    assert_eq!(join_path(PathStyle::Unix, "/a/", "b"), "/a/b");
    assert_eq!(join_path(PathStyle::Unix, "", "b"), "b");
    assert_eq!(join_path(PathStyle::Unix, "/a", "/b"), "/b");
    assert_eq!(join_path(PathStyle::Unix, "/a", ""), "/a/");
    assert_eq!(join_path(PathStyle::Windows, "C:\\a", "b"), "C:\\a\\b");
    assert_eq!(join_path(PathStyle::Windows, "C:/a/", "b"), "C:/a/b");
    assert_eq!(join_path(PathStyle::Unix, "C:\\a", "b"), "C:\\a/b");
}

#[test]
fn parent_rules() {
    let w = PathStyle::Windows;
    assert_eq!(parent_path(w, "C:\\a\\content"), Some("C:\\a".to_string()));
    assert_eq!(parent_path(w, "C:\\a\\\\content\\"), Some("C:\\a".to_string()));
    assert_eq!(parent_path(w, "C:\\content"), Some("C:\\".to_string()));
    assert_eq!(parent_path(w, "C:/a/content"), Some("C:/a".to_string()));
    assert_eq!(parent_path(w, "C:\\"), None);
    assert_eq!(parent_path(w, ""), None);
    assert_eq!(parent_path(w, "content"), Some(String::new()));
    assert_eq!(parent_path(w, "C:content"), Some("C:".to_string()));
    assert_eq!(parent_path(w, "C:"), None);
    assert_eq!(parent_path(w, "\\\\server\\share"), None);
    assert_eq!(parent_path(w, "\\\\server\\share\\"), None);
    assert_eq!(
        parent_path(w, "\\\\server\\share\\content"),
        Some("\\\\server\\share\\".to_string())
    );
    assert_eq!(parent_path(w, "C:\\a\\content\\."), Some("C:\\a".to_string()));
    assert_eq!(parent_path(w, "C:\\a\\.\\content"), Some("C:\\a".to_string()));
    assert_eq!(parent_path(w, "C:\\."), None);
    assert_eq!(parent_path(w, "."), Some(String::new()));
    assert_eq!(parent_path(w, ".\\content"), Some(".".to_string()));
    assert_eq!(parent_path(PathStyle::Unix, "/"), None);
    assert_eq!(parent_path(PathStyle::Unix, "//server/share/x"), Some("//server/share".to_string()));
    assert_eq!(parent_path(PathStyle::Unix, "/content"), Some("/".to_string()));
    assert_eq!(parent_path(PathStyle::Unix, "a\\b"), Some(String::new()));
}

#[test]
fn path_values() {
    assert!(is_path_value("/tmp/fakestudio"));
    assert!(!is_path_value(""));
    assert!(!is_path_value("a\0"));
    assert_eq!(override_variable(), "ROBLOX_STUDIO_PATH");
    assert_eq!(path_style(Platform::Windows), PathStyle::Windows);
    assert_eq!(path_style(Platform::Linux), PathStyle::Unix);
}

#[test]
fn layout_helpers() {
    assert_eq!(executable_in(PathStyle::Unix, "/v"), "/v/RobloxStudioBeta.exe");
    assert_eq!(plugins_below(PathStyle::Windows, "C:\\Users\\x"), "C:\\Users\\x\\AppData\\Local\\Roblox\\Plugins");
}

#[test]
fn markers() {
    assert!(contains_text("abcdef", "cde"));
    assert!(contains_text("abc", ""));
    assert!(!contains_text("abc", "abcd"));
    assert!(!contains_text("abdc", "dd"));
    assert!(mentions_bridge_marker("5.10-microsoft-standard"));
    assert!(mentions_bridge_marker("wsl2"));
    assert!(!mentions_bridge_marker("5.15-MICROSOFT"));
    assert!(is_bridged_release("5.15-MICROSOFT-standard"));
    assert!(is_bridged_release("6.6.36.3-microsoft-standard-WSL2"));
    assert!(is_bridged_release("custom-Wsl"));
    assert!(!is_bridged_release("6.8.0-45-generic"));
}

#[test]
fn error_messages() {
    assert_eq!(Error::NotInstalled.message(), "Couldn't find Roblox Studio");
    assert_eq!(Error::PlatformNotSupported.message(), "Your platform is not currently supported");
    assert_eq!(
        Error::EnvironmentVariableError("x".to_string()).message(),
        "Environment variable misconfigured: x"
    );
    assert_eq!(Error::WSLDetectionError.message(), "Failed to detect WSL environment");
}

#[test]
fn bridged_directory_of_user() {
    assert_eq!(bridged_roblox_directory("ana"), "/mnt/c/Users/ana/AppData/Local/Roblox");
    assert_eq!(bridged_roblox_directory(""), "/mnt/c/Users/AppData/Local/Roblox");
}

use cask::formula::{
    fetch_probe, get_formula_git_cask_url, get_formula_git_url, render_template, Arch, CpuArch,
    FetchProbe, Formula, FormulaError, Os, Package, Platform, RemoteVersions, ResourceTarget,
};
use cask::repo::GitTag;

fn platform_with(x86_64: Option<ResourceTarget>, aarch64: Option<ResourceTarget>) -> Platform {
    Platform {
        x86: None,
        x86_64,
        arm: None,
        aarch64,
        mips: None,
        mips64: None,
        mips64el: None,
    }
}

fn formula_with(
    versions: Option<Vec<String>>,
    darwin: Option<Platform>,
    linux: Option<Platform>,
) -> Formula {
    Formula {
        file_content: String::new(),
        repository: "https://github.com/example/example.git".to_string(),
        filepath: String::new(),
        cask: None,
        package: Package {
            name: "foo".to_string(),
            bin: "foo".to_string(),
            versions,
            authors: vec![],
            keywords: None,
            repository: "https://github.com/example/foo".to_string(),
            description: String::new(),
            license: None,
        },
        windows: None,
        darwin,
        linux,
        dependencies: None,
        hook: None,
    }
}

#[test]
fn test_render_template() {
    let rendered = render_template(
        "https://host/{name}-{version}/{bin}.tar.gz",
        "foo",
        "foo-bin",
        "1.2.3",
    );
    assert_eq!(rendered, "https://host/foo-1.2.3/foo-bin.tar.gz");
}

#[test]
fn test_render_template_unresolved_name_kept() {
    let rendered = render_template("https://host/{unknown}/{version}", "foo", "foo", "1.0.0");
    assert_eq!(rendered, "https://host/{unknown}/1.0.0");
}

#[test]
fn test_download_url_darwin_x86_64() {
    // A manifest declaring darwin.x86_64.url with the template below,
    // resolved for version 1.2.3 of package foo, yields the rendered URL
    // and the compressed-tar extension.
    let target = ResourceTarget::Simple("https://host/{name}-{version}.tar.gz".to_string());
    let f = formula_with(None, Some(platform_with(Some(target), None)), None);

    let t = f
        .get_current_download_url(Os::Darwin, CpuArch::X86_64, "1.2.3")
        .unwrap();
    assert_eq!(t.url, "https://host/foo-1.2.3.tar.gz");
    assert_eq!(t.ext, ".tar.gz");
    assert!(t.checksum.is_none());
}

#[test]
fn test_download_url_detailed_with_checksum_and_extension() {
    let target = ResourceTarget::Detailed(Arch {
        url: "https://host/{name}-{version}.bin".to_string(),
        checksum: Some("AABBCC".to_string()),
        extension: Some(".tar".to_string()),
    });
    let f = formula_with(None, None, Some(platform_with(Some(target), None)));

    let t = f
        .get_current_download_url(Os::Linux, CpuArch::X86_64, "2.0.0")
        .unwrap();
    assert_eq!(t.url, "https://host/foo-2.0.0.bin");
    assert_eq!(t.ext, ".tar");
    assert_eq!(t.checksum, Some("AABBCC".to_string()));
}

#[test]
fn test_download_url_sniffs_zip() {
    let target = ResourceTarget::Simple("https://host/{name}-{version}.zip".to_string());
    let f = formula_with(None, None, Some(platform_with(Some(target), None)));
    let t = f
        .get_current_download_url(Os::Linux, CpuArch::X86_64, "1.0.0")
        .unwrap();
    assert_eq!(t.ext, ".zip");
}

#[test]
fn test_download_url_defaults_unknown_suffix() {
    let target = ResourceTarget::Simple("https://host/{name}-{version}.bin".to_string());
    let f = formula_with(None, None, Some(platform_with(Some(target), None)));
    let t = f
        .get_current_download_url(Os::Linux, CpuArch::X86_64, "1.0.0")
        .unwrap();
    assert_eq!(t.ext, ".tar.gz");
}

#[test]
fn test_download_url_unsupported_platform() {
    let f = formula_with(None, None, None);
    let r = f.get_current_download_url(Os::Windows, CpuArch::Aarch64, "1.0.0");
    match r {
        Err(FormulaError::UnsupportedPlatform { name }) => assert_eq!(name, "foo"),
        _ => panic!("expected the unsupported-platform failure"),
    }
}

#[test]
fn test_download_url_missing_arch() {
    let target = ResourceTarget::Simple("https://host/a.tar.gz".to_string());
    let f = formula_with(None, Some(platform_with(Some(target), None)), None);
    let r = f.get_current_download_url(Os::Darwin, CpuArch::Aarch64, "1.0.0");
    assert!(r.is_err());
}

#[test]
fn test_get_versions_explicit_list_wins() {
    // A manifest with an explicit versions list yields that list
    // unchanged, even when the remote repository is unreachable.
    let f = formula_with(
        Some(vec!["0.1.12".to_string(), "0.1.11".to_string()]),
        None,
        None,
    );
    let versions = f.get_versions(&RemoteVersions::Unavailable).unwrap();
    assert_eq!(versions, vec!["0.1.12".to_string(), "0.1.11".to_string()]);

    let also = f
        .get_versions(&RemoteVersions::Tags(vec![GitTag {
            hash: "x".to_string(),
            tag: "v9.9.9".to_string(),
        }]))
        .unwrap();
    assert_eq!(also, vec!["0.1.12".to_string(), "0.1.11".to_string()]);
}

#[test]
fn test_get_versions_from_tags() {
    let f = formula_with(None, None, None);
    let versions = f
        .get_versions(&RemoteVersions::Tags(vec![
            GitTag {
                hash: "a".to_string(),
                tag: "v0.1.0".to_string(),
            },
            GitTag {
                hash: "b".to_string(),
                tag: "v0.2.0".to_string(),
            },
        ]))
        .unwrap();
    assert_eq!(versions, vec!["0.2.0".to_string(), "0.1.0".to_string()]);
}

#[test]
fn test_get_versions_remote_unavailable() {
    let f = formula_with(None, None, None);
    let r = f.get_versions(&RemoteVersions::Unavailable);
    assert!(r.is_err());
}

#[test]
fn test_formula_git_urls() {
    assert_eq!(
        get_formula_git_cask_url("github.com/axetroy/gpm.rs"),
        "https://github.com/axetroy/gpm.rs-cask.git"
    );
    assert_eq!(
        get_formula_git_url("github.com/axetroy/gpm.rs"),
        "https://github.com/axetroy/gpm.rs.git"
    );
}

#[test]
fn test_fetch_probe_bare_name() {
    let probe = fetch_probe("github.com/axetroy/gpm.rs").unwrap();
    match probe {
        FetchProbe::Named {
            cask_url,
            plain_url,
        } => {
            assert_eq!(cask_url, "https://github.com/axetroy/gpm.rs-cask.git");
            assert_eq!(plain_url, "https://github.com/axetroy/gpm.rs.git");
        }
        _ => panic!("expected the two conventional addresses"),
    }
}

#[test]
fn test_fetch_probe_literal_url() {
    let probe = fetch_probe("https://github.com/axetroy/prune.v").unwrap();
    match probe {
        FetchProbe::Url { url } => assert_eq!(url, "https://github.com/axetroy/prune.v"),
        _ => panic!("expected the literal address"),
    }
}

#[test]
fn test_fetch_probe_rejects_other_protocols() {
    let r = fetch_probe("ftp://example.com/thing");
    match r {
        Err(FormulaError::NotSupportedProtocol { scheme }) => assert_eq!(scheme, "ftp"),
        _ => panic!("expected the protocol refusal"),
    }
}

#[test]
fn test_installed_info() {
    let mut f = formula_with(None, None, None);
    f.package.description = "A fine tool.".to_string();
    f.cask = Some(cask::formula::Cask {
        name: "foo".to_string(),
        created_at: "2022-01-01T00:00:00Z".to_string(),
        version: "1.0.0".to_string(),
        repository: "https://github.com/example/foo-cask.git".to_string(),
    });
    let text = f.installed_info("/store/formula/abc").unwrap();
    assert_eq!(
        text,
        "A fine tool.\nPackage: foo\nVersion: 1.0.0\nRepository: https://github.com/example/foo\nLocation: /store/formula/abc\nInstalled: true\n"
    );
}

#[test]
fn test_installed_info_needs_cask_record() {
    let f = formula_with(None, None, None);
    assert!(f.installed_info("/anywhere").is_err());
}

#[test]
fn test_remote_info() {
    let mut f = formula_with(None, None, None);
    f.package.description = "A fine tool.".to_string();
    let text = f.remote_info();
    assert_eq!(
        text,
        "A fine tool.\nPackage: foo\nRepository: https://github.com/example/foo\nInstalled: false\n"
    );
}

#[test]
fn test_get_file_content() {
    let mut f = formula_with(None, None, None);
    f.file_content = "[package]\nname = \"foo\"\n".to_string();
    assert_eq!(f.get_file_content(), "[package]\nname = \"foo\"\n");
}

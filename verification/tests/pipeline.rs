use cask::formula::{
    CpuArch, Formula, Os, Package, Platform, RemoteVersions, ResourceTarget,
};
use cask::pipeline::{
    check_bin_conflict, compute_checksum, find_package, install_step, render_cask_block,
    stamped_manifest, uninstall_paths, upgrade_plan, verify_checksum, DownloadPlan, InstallAction,
    InstallContext, InstallError, InstallEvent, InstallState, UpgradeDecision,
};

fn simple_formula(name: &str, bin: &str, cask_name: Option<&str>) -> Formula {
    Formula {
        file_content: "[package]\n".to_string(),
        repository: "https://github.com/example/repo.git".to_string(),
        filepath: String::new(),
        cask: cask_name.map(|n| cask::formula::Cask {
            name: n.to_string(),
            created_at: "2022-01-01T00:00:00Z".to_string(),
            version: "1.0.0".to_string(),
            repository: "https://github.com/example/repo.git".to_string(),
        }),
        package: Package {
            name: name.to_string(),
            bin: bin.to_string(),
            versions: Some(vec!["1.0.0".to_string()]),
            authors: vec![],
            keywords: None,
            repository: "https://github.com/example/repo".to_string(),
            description: String::new(),
            license: None,
        },
        windows: None,
        darwin: None,
        linux: Some(Platform {
            x86: None,
            x86_64: Some(ResourceTarget::Simple(
                "https://host/{name}-{version}.tar.gz".to_string(),
            )),
            arm: None,
            aarch64: None,
            mips: None,
            mips64: None,
            mips64el: None,
        }),
        dependencies: None,
        hook: None,
    }
}

fn context(formula: Formula) -> InstallContext {
    InstallContext {
        store: cask::cask::new("/tmp/cask-root"),
        formula,
        requested_version: None,
        os: Os::Linux,
        arch: CpuArch::X86_64,
        windows: false,
        created_at: "2022-01-01T00:00:00Z".to_string(),
    }
}

#[test]
fn test_conflict_between_different_packages() {
    // Installing package foo whose binary name foo is already claimed by
    // the installed package bar is refused, naming bar, before anything
    // else happens.
    let incoming = simple_formula("foo", "foo", None);
    let installed = vec![simple_formula("bar", "foo", Some("bar"))];
    let r = check_bin_conflict(&incoming, &installed);
    match r {
        Err(InstallError::BinaryNameConflict { package, owner }) => {
            assert_eq!(package, "foo");
            assert_eq!(owner, "bar");
        }
        _ => panic!("expected the binary-name conflict"),
    }
}

#[test]
fn test_no_conflict_with_same_package() {
    let incoming = simple_formula("foo", "foo", None);
    let installed = vec![simple_formula("foo", "foo", Some("foo"))];
    assert!(check_bin_conflict(&incoming, &installed).is_ok());
}

#[test]
fn test_conflict_stops_pipeline_before_network() {
    // The conflict is decided from the formula and the installed list
    // alone: the step fails and asks for nothing further, so no network
    // access can follow.
    let ctx = context(simple_formula("foo", "foo", None));
    let installed = vec![simple_formula("bar", "foo", Some("bar"))];
    let (state, action) = install_step(
        &ctx,
        InstallState::CheckingConflicts,
        InstallEvent::InstalledListed { installed },
    );
    match state {
        InstallState::Failed {
            error: InstallError::BinaryNameConflict { owner, .. },
        } => assert_eq!(owner, "bar"),
        _ => panic!("expected the failed state"),
    }
    assert!(matches!(action, InstallAction::NoOp));
}

#[test]
fn test_checksum_mismatch_deletes_download() {
    // A declared checksum that differs from the computed digest fails
    // the install with a checksum mismatch, and the downloaded file is
    // deleted as part of the same step.
    let ctx = context(simple_formula("foo", "foo", None));
    let plan = DownloadPlan {
        version: "1.0.0".to_string(),
        url: "https://host/foo-1.0.0.tar.gz".to_string(),
        checksum: Some("deadbeef".to_string()),
        ext: ".tar.gz".to_string(),
        download_path: "/tmp/cask-root/file.tar.gz".to_string(),
    };
    let (state, action) = install_step(
        &ctx,
        InstallState::VerifyingChecksum { plan },
        InstallEvent::Checksummed {
            digest: "0000000000000000".to_string(),
        },
    );
    match state {
        InstallState::Failed {
            error: InstallError::ChecksumMismatch { actual, expected },
        } => {
            assert_eq!(actual, "0000000000000000");
            assert_eq!(expected, "deadbeef");
        }
        _ => panic!("expected the checksum mismatch"),
    }
    match action {
        InstallAction::DeleteFile { path } => {
            assert_eq!(path, "/tmp/cask-root/file.tar.gz");
        }
        _ => panic!("expected the delete action"),
    }
}

#[test]
fn test_checksum_match_proceeds_case_insensitively() {
    let ctx = context(simple_formula("foo", "foo", None));
    let plan = DownloadPlan {
        version: "1.0.0".to_string(),
        url: "https://host/foo-1.0.0.tar.gz".to_string(),
        checksum: Some("DEADBEEF".to_string()),
        ext: ".tar.gz".to_string(),
        download_path: "/tmp/cask-root/file.tar.gz".to_string(),
    };
    let (state, _) = install_step(
        &ctx,
        InstallState::VerifyingChecksum { plan },
        InstallEvent::Checksummed {
            digest: "deadbeef".to_string(),
        },
    );
    assert!(matches!(state, InstallState::Extracting { .. }));
}

#[test]
fn test_install_walk_to_done() {
    let ctx = context(simple_formula("foo", "foo", None));

    let (state, action) = install_step(
        &ctx,
        InstallState::CheckingConflicts,
        InstallEvent::InstalledListed { installed: vec![] },
    );
    assert!(matches!(state, InstallState::RunningPreHook));
    match &action {
        InstallAction::RunHook { moment, .. } => assert_eq!(moment, "preinstall"),
        _ => panic!("expected the pre-install hook"),
    }

    let (state, action) = install_step(
        &ctx,
        state,
        InstallEvent::HookRan { outcome: Ok(()) },
    );
    assert!(matches!(state, InstallState::ResolvingVersions));
    assert!(matches!(action, InstallAction::ComputeVersions));

    let versions = ctx
        .formula
        .get_versions(&RemoteVersions::Unavailable)
        .unwrap();
    let (state, action) = install_step(&ctx, state, InstallEvent::VersionsComputed { versions });
    match &state {
        InstallState::Downloading { plan } => {
            assert_eq!(plan.version, "1.0.0");
            assert_eq!(plan.url, "https://host/foo-1.0.0.tar.gz");
            assert_eq!(plan.ext, ".tar.gz");
        }
        _ => panic!("expected the downloading state"),
    }
    match &action {
        InstallAction::Download { url, dest } => {
            assert_eq!(url, "https://host/foo-1.0.0.tar.gz");
            assert!(dest.ends_with("/version/1.0.0.tar.gz"));
        }
        _ => panic!("expected the download action"),
    }

    let (state, action) = install_step(&ctx, state, InstallEvent::Downloaded { outcome: Ok(()) });
    assert!(matches!(state, InstallState::Extracting { .. }));
    match &action {
        InstallAction::ExtractArchive {
            filename, folder, ..
        } => {
            assert_eq!(filename, "foo");
            assert_eq!(folder, "/");
        }
        _ => panic!("expected the extract action"),
    }

    let (state, action) = install_step(
        &ctx,
        state,
        InstallEvent::Extracted {
            outcome: Ok("/tmp/cask-root/out/foo".to_string()),
        },
    );
    assert!(matches!(state, InstallState::Linking { .. }));
    match &action {
        InstallAction::Link { src, dest, package } => {
            assert_eq!(src, "/tmp/cask-root/out/foo");
            assert_eq!(dest, "/tmp/cask-root/bin/foo");
            assert_eq!(package, "foo");
        }
        _ => panic!("expected the link action"),
    }

    let (state, action) = install_step(&ctx, state, InstallEvent::Linked { outcome: Ok(()) });
    assert!(matches!(state, InstallState::PersistingMetadata { .. }));
    match &action {
        InstallAction::WriteMetadata { path, content } => {
            assert!(path.ends_with("/Cask.toml"));
            assert!(content.starts_with(
                "# The file is generated by Cask. DO NOT MODIFY IT.\n[cask]\nname = \"foo\""
            ));
            assert!(content.ends_with("[package]\n"));
        }
        _ => panic!("expected the metadata action"),
    }

    let (state, action) = install_step(
        &ctx,
        state,
        InstallEvent::MetadataWritten { outcome: Ok(()) },
    );
    assert!(matches!(state, InstallState::RunningPostHook));
    match &action {
        InstallAction::RunHook { moment, .. } => assert_eq!(moment, "postinstall"),
        _ => panic!("expected the post-install hook"),
    }

    let (state, action) = install_step(&ctx, state, InstallEvent::HookRan { outcome: Ok(()) });
    assert!(matches!(state, InstallState::Done));
    assert!(matches!(action, InstallAction::NoOp));
}

#[test]
fn test_install_no_versions_available() {
    let mut f = simple_formula("foo", "foo", None);
    f.package.versions = Some(vec![]);
    let ctx = context(f);
    let (state, _) = install_step(
        &ctx,
        InstallState::ResolvingVersions,
        InstallEvent::VersionsComputed { versions: vec![] },
    );
    assert!(matches!(
        state,
        InstallState::Failed {
            error: InstallError::NoVersionsAvailable { .. }
        }
    ));
}

#[test]
fn test_install_invalid_constraint() {
    let mut ctx = context(simple_formula("foo", "foo", None));
    ctx.requested_version = Some("!!nonsense!!".to_string());
    let (state, _) = install_step(
        &ctx,
        InstallState::ResolvingVersions,
        InstallEvent::VersionsComputed {
            versions: vec!["1.0.0".to_string()],
        },
    );
    match state {
        InstallState::Failed {
            error: InstallError::InvalidVersionConstraint { constraint },
        } => assert_eq!(constraint, "!!nonsense!!"),
        _ => panic!("expected the constraint refusal"),
    }
}

#[test]
fn test_step_ignores_unexpected_event() {
    // An event a state does not wait for changes nothing.
    let ctx = context(simple_formula("foo", "foo", None));
    let (state, action) = install_step(
        &ctx,
        InstallState::CheckingConflicts,
        InstallEvent::Checksummed {
            digest: "abc".to_string(),
        },
    );
    assert!(matches!(state, InstallState::CheckingConflicts));
    assert!(matches!(action, InstallAction::NoOp));
}

#[test]
fn test_verify_checksum_without_declaration() {
    assert!(verify_checksum(&None, "anything").is_ok());
}

#[test]
fn test_verify_checksum_ignores_case() {
    assert!(verify_checksum(&Some("AbCdEf".to_string()), "aBcDeF").is_ok());
}

#[test]
fn test_compute_checksum_matches_reference() {
    let digest = compute_checksum(b"hello world\n");
    let reference = format!("{:x}", <sha2::Sha256 as sha2::Digest>::digest(b"hello world\n"));
    assert_eq!(digest, reference);
    assert_eq!(
        digest,
        "a948904f2f0f479b8f8197694b30184b0d2ed1c1cd2a1ec0fb85d299a192a447"
    );
}

#[test]
fn test_uninstall_removes_what_install_created() {
    // Round trip: the bin entry the installation links and the package
    // directory are both among what the uninstallation removes, for the
    // symlink strategy and for the dual-shim strategy.
    let store = cask::cask::new("/tmp/cask-root");
    let f = simple_formula("foo", "foo", None);

    let posix = uninstall_paths(&store, &f, false);
    let link = cask::text::join_path(&store.bin_dir(), "foo");
    let pkg_dir = store.package_dir("foo");
    assert!(posix.contains(&link));
    assert!(posix.contains(&pkg_dir));

    let windows = uninstall_paths(&store, &f, true);
    let names = cask::linker::link_names("foo", true);
    for n in &names {
        let p = cask::text::join_path(&store.bin_dir(), n);
        assert!(windows.contains(&p));
    }
    assert!(windows.contains(&pkg_dir));
}

#[test]
fn test_find_package_by_name_then_bin() {
    let installed = vec![
        simple_formula("alpha", "a-bin", Some("alpha")),
        simple_formula("beta", "b-bin", Some("beta")),
    ];
    let by_name = find_package(&installed, "beta").unwrap();
    assert_eq!(by_name.package.name, "beta");
    let by_bin = find_package(&installed, "a-bin").unwrap();
    assert_eq!(by_bin.package.name, "alpha");
    assert!(find_package(&installed, "gamma").is_none());
}

#[test]
fn test_upgrade_plan_up_to_date() {
    let remote = vec!["1.2.0".to_string(), "1.1.0".to_string()];
    let d = upgrade_plan("foo", "1.2.0", &remote).unwrap();
    assert!(matches!(d, UpgradeDecision::UpToDate));
}

#[test]
fn test_upgrade_plan_newer_available() {
    let remote = vec!["1.2.0".to_string(), "1.1.0".to_string()];
    let d = upgrade_plan("foo", "1.0.0", &remote).unwrap();
    match d {
        UpgradeDecision::Install { version } => assert_eq!(version, "1.2.0"),
        _ => panic!("expected the upgrade"),
    }
}

#[test]
fn test_upgrade_plan_bad_current_version() {
    let remote = vec!["1.2.0".to_string()];
    let r = upgrade_plan("foo", "not-a-version", &remote);
    assert!(r.is_err());
}

#[test]
fn test_upgrade_plan_no_remote_versions() {
    let remote: Vec<String> = vec![];
    let r = upgrade_plan("foo", "1.0.0", &remote);
    match r {
        Err(InstallError::NoVersionsAvailable { name }) => assert_eq!(name, "foo"),
        _ => panic!("expected the no-versions failure"),
    }
}

#[test]
fn test_render_cask_block() {
    let block = render_cask_block(
        "github.com/axetroy/test",
        "2022-01-01T00:00:00Z",
        "1.0.0",
        "https://github.com/axetroy/test-cask.git",
    );
    let expect = "# The file is generated by Cask. DO NOT MODIFY IT.\n[cask]\nname = \"github.com/axetroy/test\"\ncreated_at = \"2022-01-01T00:00:00Z\"\nversion = \"1.0.0\"\nrepository = \"https://github.com/axetroy/test-cask.git\"\n\n";
    assert_eq!(block, expect);
}

#[test]
fn test_stamped_manifest_keeps_original_text() {
    let f = simple_formula("foo", "foo", None);
    let stamped = stamped_manifest(&f, "1.0.0", "2022-01-01T00:00:00Z");
    assert!(stamped.starts_with("# The file is generated by Cask."));
    assert!(stamped.ends_with("[package]\n"));
}

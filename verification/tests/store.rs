use cask::hooker::{Hook, HookDefinition, HookError, HookOs, Terminal};
use cask::linker::{batch_shim, link_names, shell_shim};
use cask::shell;
use cask::text::join_path;

#[test]
fn test_store_paths() {
    let store = cask::cask::new("/home/user/.cask");
    assert_eq!(store.root_dir(), "/home/user/.cask");
    assert_eq!(store.bin_dir(), "/home/user/.cask/bin");
    assert_eq!(store.formula_dir(), "/home/user/.cask/formula");

    let name = "github.com/axetroy/gpm.rs";
    let hash = format!(
        "{:x}",
        <sha2::Sha256 as sha2::Digest>::digest(name.as_bytes())
    );
    assert_eq!(
        store.package_dir(name),
        format!("/home/user/.cask/formula/{}", hash)
    );
    assert_eq!(
        store.package_bin_dir(name),
        format!("/home/user/.cask/formula/{}/bin", hash)
    );
    assert_eq!(
        store.package_version_dir(name),
        format!("/home/user/.cask/formula/{}/version", hash)
    );
    assert_eq!(
        store.download_path(name, "1.0.0", ".tar.gz"),
        format!("/home/user/.cask/formula/{}/version/1.0.0.tar.gz", hash)
    );
}

#[test]
fn test_join_path_collapses_trailing_separator() {
    assert_eq!(join_path("/root/", "bin"), "/root/bin");
    assert_eq!(join_path("/root", "bin"), "/root/bin");
}

#[test]
fn test_init_dirs() {
    let store = cask::cask::new("/r");
    let dirs = store.init_dirs();
    assert_eq!(dirs, vec!["/r".to_string(), "/r/bin".to_string(), "/r/formula".to_string()]);
}

#[test]
fn test_symlink() {
    // The dual-shim exposure: both generated scripts embed the source
    // path and the owning package as provenance, the shell shim binds
    // the path to a variable, and the batch shim forwards all arguments.
    let src = "/home/user/.cask/formula/abc/bin/test";
    let package = "github.com/axetroy/test";

    let shell_content = shell_shim(src, package);
    assert!(shell_content.contains(&format!("# package: {}", package)));
    assert!(shell_content.contains(&format!("# filepath: {}", src)));
    assert!(shell_content.contains(&format!("xbin=\"{}\"", src)));

    let bat_content = batch_shim(src, package);
    assert!(bat_content.contains(&format!(":: package: {}", package)));
    assert!(bat_content.contains(&format!(":: filepath: {}", src)));
    assert!(bat_content.contains(&format!("\"{}\" %*", src)));
}

#[test]
fn test_shim_generation_is_idempotent() {
    // Generating the shim pair twice yields the same file names with the
    // same contents, so the second run overwrites rather than adds.
    let first_names = link_names("test", true);
    let second_names = link_names("test", true);
    assert_eq!(first_names, second_names);
    assert_eq!(first_names, vec!["test".to_string(), "test.bat".to_string()]);

    let first = (shell_shim("/p/test", "pkg"), batch_shim("/p/test", "pkg"));
    let second = (shell_shim("/p/test", "pkg"), batch_shim("/p/test", "pkg"));
    assert_eq!(first, second);
}

#[test]
fn test_posix_link_claims_one_name() {
    assert_eq!(link_names("test", false), vec!["test".to_string()]);
}

#[test]
fn test_terminal_command() {
    assert_eq!(
        shell::terminal_command(shell::Terminal::Sh),
        vec!["sh".to_string(), "-c".to_string()]
    );
    assert_eq!(
        shell::terminal_command(shell::Terminal::Bash),
        vec!["bash".to_string(), "-c".to_string()]
    );
    assert_eq!(
        shell::terminal_command(shell::Terminal::Cmd),
        vec!["cmd.exe".to_string(), "--%".to_string(), "/c".to_string()]
    );
    assert_eq!(
        shell::terminal_command(shell::Terminal::PowerShell),
        vec![
            "powershell.exe".to_string(),
            "-NoLogo".to_string(),
            "-NoProfile".to_string(),
            "-NonInteractive".to_string(),
            "-Command".to_string(),
        ]
    );
}

#[test]
fn test_default_terminal() {
    assert!(matches!(shell::default_terminal(true), shell::Terminal::Sh));
    assert!(matches!(shell::default_terminal(false), shell::Terminal::Cmd));
}

fn sample_hook() -> Hook {
    Hook {
        windows: Some(Terminal {
            cmd: Some(HookDefinition {
                preinstall: Some("echo \"preinstall\"".to_string()),
                postinstall: Some("echo \"postinstall\"".to_string()),
            }),
            powershell: None,
            sh: None,
            bash: None,
        }),
        unix: Some(Terminal {
            cmd: None,
            powershell: None,
            sh: Some(HookDefinition {
                preinstall: Some("echo \"preinstall\"".to_string()),
                postinstall: Some("echo \"postinstall\"".to_string()),
            }),
            bash: None,
        }),
        linux: None,
        macos: None,
        freebsd: None,
    }
}

#[test]
fn test_hook_script_moments() {
    let hook = sample_hook();

    let r1 = hook.script(HookOs::Linux, "preinstall");
    match r1 {
        Ok(Some((terminal, script))) => {
            assert!(matches!(terminal, shell::Terminal::Sh));
            assert_eq!(script, "echo \"preinstall\"");
        }
        _ => panic!("expected the pre-install script"),
    }

    let r2 = hook.script(HookOs::Linux, "postinstall");
    match r2 {
        Ok(Some((_, script))) => assert_eq!(script, "echo \"postinstall\""),
        _ => panic!("expected the post-install script"),
    }

    let r3 = hook.script(HookOs::Linux, "unknown");
    match r3 {
        Err(HookError::UnknownHook { name }) => assert_eq!(name, "unknown"),
        _ => panic!("expected the unknown-hook refusal"),
    }
}

#[test]
fn test_hook_resolve_prefers_specific_platform() {
    let mut hook = sample_hook();
    hook.linux = Some(Terminal {
        cmd: None,
        powershell: None,
        sh: None,
        bash: Some(HookDefinition {
            preinstall: Some("echo linux".to_string()),
            postinstall: None,
        }),
    });
    let resolved = hook.resolve(HookOs::Linux).unwrap();
    assert!(matches!(resolved.terminal, shell::Terminal::Bash));
    assert_eq!(resolved.hook.preinstall, Some("echo linux".to_string()));

    let windows = hook.resolve(HookOs::Windows).unwrap();
    assert!(matches!(windows.terminal, shell::Terminal::Cmd));
}

#[test]
fn test_hook_without_block_runs_nothing() {
    let hook = Hook {
        windows: None,
        unix: None,
        linux: None,
        macos: None,
        freebsd: None,
    };
    let r = hook.script(HookOs::Linux, "whatever");
    assert!(matches!(r, Ok(None)));
}

#[test]
fn test_clone_args() {
    let args = cask::repo::clone_args(&cask::repo::CloneOption {
        depth: Some(1),
        quiet: Some(true),
        single_branch: Some(true),
        dissociate: Some(true),
        filter: Some("tree:0".to_string()),
    });
    assert_eq!(
        args,
        vec![
            "--depth=1".to_string(),
            "--quiet".to_string(),
            "--dissociate".to_string(),
            "--single-branch".to_string(),
            "--filter=tree:0".to_string(),
        ]
    );
}

#[test]
fn test_interpret_exit_codes() {
    assert_eq!(cask::repo::interpret_probe_exit(0).unwrap(), true);
    assert_eq!(cask::repo::interpret_probe_exit(128).unwrap(), false);
    assert!(cask::repo::interpret_probe_exit(1).is_err());

    assert!(cask::repo::interpret_clone_exit("u", 0).is_ok());
    match cask::repo::interpret_clone_exit("https://x/y.git", 128) {
        Err(cask::repo::GitError::RemoteRepositoryNotExists { url }) => {
            assert_eq!(url, "https://x/y.git");
        }
        _ => panic!("expected the missing-repository failure"),
    }
}

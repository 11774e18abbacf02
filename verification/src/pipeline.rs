//! The installation pipeline, as a state machine.
//!
//! The caller performs the outside work — listing what is installed,
//! running hook scripts, reaching the repository, downloading, reading
//! and writing files — and feeds each outcome back as an event.  Every
//! decision between two events is made here: the conflict check, version
//! selection, download-target resolution, the checksum verdict, and what
//! each step's failure means.  A conflict stops the pipeline before any
//! event that could touch the network is even asked for.

use vstd::prelude::*;

use crate::cask::{sha256_hex_of, Cask};
use crate::formula::{
    spec_ext_choice, spec_opt_str, spec_render, spec_target_checksum, spec_target_of,
    spec_target_url, CpuArch, DownloadTarget, Formula, Os,
};
use crate::linker::spec_link_names;
use crate::text::{eq_ignore_ascii_case, spec_join_path, spec_lower};
use crate::version::{req_parses, select_version, semver_parse, semver_of, spec_first_version_match,
    spec_version_lt, version_lt, SelectError,
};

verus! {

/// A failure of the installation pipeline, each step with its own cause.
#[derive(Debug)]
pub enum InstallError {
    PackageNotFound { name: String },
    BinaryNameConflict { package: String, owner: String },
    NoVersionsAvailable { name: String },
    InvalidVersionConstraint { constraint: String },
    VersionNotFound { constraint: String },
    UnsupportedPlatform { name: String },
    InvalidUrl { url: String },
    InvalidVersion { version: String },
    ChecksumMismatch { actual: String, expected: String },
    RemoteUnavailable { url: String },
    HookFailed { message: String },
    DownloadFailed { message: String },
    ExtractFailed { message: String },
    LinkFailed { message: String },
    MetadataFailed { message: String },
}

/// The package that owns an installed formula: the name stamped at
/// install time when there is one, else the declared name.
pub open spec fn spec_owner_name(f: Formula) -> Seq<char> {
    match f.cask {
        Some(c) => c.name@,
        None => f.package.name@,
    }
}

/// The first installed formula that claims the executable name for a
/// different package.
pub open spec fn spec_first_conflict(
    installed: Seq<Formula>,
    bin: Seq<char>,
    name: Seq<char>,
) -> Option<int>
    decreases installed.len(),
{
    if installed.len() == 0 {
        None
    } else if installed[0].package.bin@ == bin && spec_owner_name(installed[0]) != name {
        Some(0)
    } else {
        match spec_first_conflict(installed.skip(1), bin, name) {
            Some(i) => Some(i + 1),
            None => None,
        }
    }
}

proof fn lemma_conflict_found(installed: Seq<Formula>, bin: Seq<char>, name: Seq<char>, i: int)
    requires
        0 <= i < installed.len(),
        installed[i].package.bin@ == bin && spec_owner_name(installed[i]) != name,
        forall|j: int|
            0 <= j < i ==> !((#[trigger] installed[j]).package.bin@ == bin && spec_owner_name(
                installed[j],
            ) != name),
    ensures
        spec_first_conflict(installed, bin, name) == Some(i),
    decreases i,
{
    if i > 0 {
        assert(installed.skip(1)[i - 1] == installed[i]);
        assert(forall|j: int|
            0 <= j < i - 1 ==> (#[trigger] installed.skip(1)[j]) == installed[j + 1]);
        lemma_conflict_found(installed.skip(1), bin, name, i - 1);
    }
}

proof fn lemma_conflict_none(installed: Seq<Formula>, bin: Seq<char>, name: Seq<char>)
    requires
        forall|j: int|
            0 <= j < installed.len() ==> !((#[trigger] installed[j]).package.bin@ == bin
                && spec_owner_name(installed[j]) != name),
    ensures
        spec_first_conflict(installed, bin, name) is None,
    decreases installed.len(),
{
    if installed.len() > 0 {
        assert(forall|j: int|
            0 <= j < installed.len() - 1 ==> (#[trigger] installed.skip(1)[j]) == installed[j
                + 1]);
        lemma_conflict_none(installed.skip(1), bin, name);
    }
}

/// Rejects an installation whose executable name is already claimed by a
/// different installed package; the existing owner is named.  The check
/// reads only the formula and the installed list.
pub fn check_bin_conflict(formula: &Formula, installed: &Vec<Formula>) -> (r: Result<
    (),
    InstallError,
>)
    ensures
        match spec_first_conflict(installed@, formula.package.bin@, formula.package.name@) {
            Some(i) => (r matches Err(InstallError::BinaryNameConflict { package, owner })
                && package@ == formula.package.name@ && owner@ == spec_owner_name(installed@[i])),
            None => r is Ok,
        },
{
    let mut i: usize = 0;
    while i < installed.len()
        invariant
            i <= installed@.len(),
            forall|j: int|
                0 <= j < i ==> !((#[trigger] installed@[j]).package.bin@
                    == formula.package.bin@ && spec_owner_name(installed@[j])
                    != formula.package.name@),
        decreases installed@.len() - i,
    {
        if crate::text::str_eq(installed[i].package.bin.as_str(), formula.package.bin.as_str()) {
            let owner = match installed[i].cask {
                Some(ref c) => c.name.clone(),
                None => installed[i].package.name.clone(),
            };
            if !crate::text::str_eq(owner.as_str(), formula.package.name.as_str()) {
                proof {
                    lemma_conflict_found(
                        installed@,
                        formula.package.bin@,
                        formula.package.name@,
                        i as int,
                    );
                }
                return Err(
                    InstallError::BinaryNameConflict {
                        package: formula.package.name.clone(),
                        owner,
                    },
                );
            }
        }
        i = i + 1;
    }
    proof {
        lemma_conflict_none(installed@, formula.package.bin@, formula.package.name@);
    }
    Ok(())
}

/// Finds an installed package: first by declared package name, then,
/// when no name matches, by executable name; the earliest match wins.
pub fn find_package<'a>(installed: &'a Vec<Formula>, package_name: &str) -> (r: Option<
    &'a Formula,
>)
    ensures
        r is None ==> forall|i: int|
            0 <= i < installed@.len() ==> (#[trigger] installed@[i]).package.name@
                != package_name@ && installed@[i].package.bin@ != package_name@,
        r matches Some(f) ==> {
            ||| exists|i: int|
                {
                    &&& 0 <= i < installed@.len()
                    &&& *f == #[trigger] installed@[i]
                    &&& installed@[i].package.name@ == package_name@
                    &&& forall|j: int|
                        0 <= j < i ==> (#[trigger] installed@[j]).package.name@ != package_name@
                }
            ||| ((forall|i: int|
                0 <= i < installed@.len() ==> (#[trigger] installed@[i]).package.name@
                    != package_name@) && exists|i: int|
                {
                    &&& 0 <= i < installed@.len()
                    &&& *f == #[trigger] installed@[i]
                    &&& installed@[i].package.bin@ == package_name@
                    &&& forall|j: int|
                        0 <= j < i ==> (#[trigger] installed@[j]).package.bin@ != package_name@
                })
        },
{
    let mut i: usize = 0;
    while i < installed.len()
        invariant
            i <= installed@.len(),
            forall|j: int|
                0 <= j < i ==> (#[trigger] installed@[j]).package.name@ != package_name@,
        decreases installed@.len() - i,
    {
        if crate::text::str_eq(installed[i].package.name.as_str(), package_name) {
            return Some(&installed[i]);
        }
        i = i + 1;
    }
    let mut k: usize = 0;
    while k < installed.len()
        invariant
            k <= installed@.len(),
            forall|j: int|
                0 <= j < installed@.len() ==> (#[trigger] installed@[j]).package.name@
                    != package_name@,
            forall|j: int|
                0 <= j < k ==> (#[trigger] installed@[j]).package.bin@ != package_name@,
        decreases installed@.len() - k,
    {
        if crate::text::str_eq(installed[k].package.bin.as_str(), package_name) {
            return Some(&installed[k]);
        }
        k = k + 1;
    }
    None
}

/// Compares a computed digest against a declared checksum, ignoring
/// ASCII case.  Without a declared checksum everything passes; a
/// mismatch names both values.
pub fn verify_checksum(expected: &Option<String>, actual_hex: &str) -> (r: Result<
    (),
    InstallError,
>)
    ensures
        expected is None ==> r is Ok,
        expected matches Some(c) ==> {
            &&& spec_lower(c@) == spec_lower(actual_hex@) ==> r is Ok
            &&& spec_lower(c@) != spec_lower(actual_hex@) ==> (r matches Err(
                InstallError::ChecksumMismatch { actual, expected: e },
            ) && actual@ == actual_hex@ && e@ == c@)
        },
{
    match expected {
        None => Ok(()),
        Some(c) => {
            if eq_ignore_ascii_case(c.as_str(), actual_hex) {
                Ok(())
            } else {
                Err(
                    InstallError::ChecksumMismatch {
                        actual: actual_hex.to_owned(),
                        expected: c.clone(),
                    },
                )
            }
        },
    }
}

/// The provenance block written at the head of a stored manifest.
pub open spec fn spec_cask_block(
    name: Seq<char>,
    created_at: Seq<char>,
    version: Seq<char>,
    repository: Seq<char>,
) -> Seq<char> {
    "# The file is generated by Cask. DO NOT MODIFY IT.\n[cask]\nname = \""@ + name
        + "\"\ncreated_at = \""@ + created_at + "\"\nversion = \""@ + version
        + "\"\nrepository = \""@ + repository + "\"\n\n"@
}

/// Writes the provenance block.
pub fn render_cask_block(
    name: &str,
    created_at: &str,
    version: &str,
    repository: &str,
) -> (r: String)
    ensures
        r@ == spec_cask_block(name@, created_at@, version@, repository@),
{
    let r = String::from_str("# The file is generated by Cask. DO NOT MODIFY IT.\n[cask]\nname = \"")
        .concat(name).concat("\"\ncreated_at = \"").concat(created_at).concat(
        "\"\nversion = \"",
    ).concat(version).concat("\"\nrepository = \"").concat(repository).concat("\"\n\n");
    proof {
        assert(r@ =~= spec_cask_block(name@, created_at@, version@, repository@));
    }
    r
}

/// The stored manifest: the provenance block followed by the manifest's
/// original text, unchanged.
pub fn stamped_manifest(formula: &Formula, version: &str, created_at: &str) -> (r: String)
    ensures
        r@ == spec_cask_block(
            formula.package.name@,
            created_at@,
            version@,
            formula.repository@,
        ) + formula.file_content@,
{
    let block = render_cask_block(
        formula.package.name.as_str(),
        created_at,
        version,
        formula.repository.as_str(),
    );
    block.concat(formula.file_content.as_str())
}

/// The package directory of a store root, by hashed name.
pub open spec fn spec_package_dir(root: Seq<char>, name_bytes: Seq<u8>) -> Seq<char> {
    spec_join_path(spec_join_path(root, "formula"@), sha256_hex_of(name_bytes))
}

/// The names an installation writes into the store's bin directory,
/// joined under it, as full paths.
pub open spec fn spec_install_link_paths(
    root: Seq<char>,
    bin: Seq<char>,
    windows: bool,
) -> Seq<Seq<char>> {
    spec_link_names(bin, windows).map_values(
        |n: Seq<char>| spec_join_path(spec_join_path(root, "bin"@), n),
    )
}

/// Everything an installation leaves behind, as paths: the claimed bin
/// entries and the package directory.
pub open spec fn spec_install_artifacts(
    root: Seq<char>,
    bin: Seq<char>,
    name_bytes: Seq<u8>,
    windows: bool,
) -> Seq<Seq<char>> {
    spec_install_link_paths(root, bin, windows) + seq![spec_package_dir(root, name_bytes)]
}

/// The paths an uninstallation removes: the bin entry, on Windows also
/// the batch shim, and the whole package directory.
pub open spec fn spec_uninstall_paths(
    root: Seq<char>,
    bin: Seq<char>,
    name_bytes: Seq<u8>,
    windows: bool,
) -> Seq<Seq<char>> {
    let bin_dir = spec_join_path(root, "bin"@);
    if windows {
        seq![
            spec_join_path(bin_dir, bin),
            spec_join_path(bin_dir, bin + ".bat"@),
            spec_package_dir(root, name_bytes),
        ]
    } else {
        seq![spec_join_path(bin_dir, bin), spec_package_dir(root, name_bytes)]
    }
}

/// Installing then uninstalling a package leaves nothing: every path an
/// installation creates — each claimed bin entry, and the package
/// directory with everything under it — is among the paths the
/// uninstallation removes, under either exposure strategy.
pub proof fn lemma_uninstall_covers_install(
    root: Seq<char>,
    bin: Seq<char>,
    name_bytes: Seq<u8>,
    windows: bool,
)
    ensures
        forall|i: int|
            0 <= i < spec_install_artifacts(root, bin, name_bytes, windows).len()
                ==> spec_uninstall_paths(root, bin, name_bytes, windows).contains(
                #[trigger] spec_install_artifacts(root, bin, name_bytes, windows)[i],
            ),
{
    let arts = spec_install_artifacts(root, bin, name_bytes, windows);
    let outs = spec_uninstall_paths(root, bin, name_bytes, windows);
    assert forall|i: int| 0 <= i < arts.len() implies outs.contains(#[trigger] arts[i]) by {
        if windows {
            if i == 0 {
                assert(arts[0] == outs[0]);
            } else if i == 1 {
                assert(arts[1] == outs[1]);
            } else {
                assert(arts[2] == outs[2]);
            }
        } else {
            if i == 0 {
                assert(arts[0] == outs[0]);
            } else {
                assert(arts[1] == outs[1]);
            }
        }
    }
}

/// Computes the paths an uninstallation removes, in removal order.
pub fn uninstall_paths(store: &Cask, formula: &Formula, windows: bool) -> (r: Vec<String>)
    ensures
        r@.map_values(|s: String| s@) == spec_uninstall_paths(
            store.spec_root(),
            formula.package.bin@,
            vstd::utf8::encode_utf8(formula.package.name@),
            windows,
        ),
{
    let bin_dir = store.bin_dir();
    let mut r: Vec<String> = Vec::new();
    r.push(crate::text::join_path(bin_dir.as_str(), formula.package.bin.as_str()));
    if windows {
        let bat = String::from_str(formula.package.bin.as_str()).concat(".bat");
        r.push(crate::text::join_path(bin_dir.as_str(), bat.as_str()));
    }
    r.push(store.package_dir(formula.package.name.as_str()));
    proof {
        assert(r@.map_values(|s: String| s@) =~= spec_uninstall_paths(
            store.spec_root(),
            formula.package.bin@,
            vstd::utf8::encode_utf8(formula.package.name@),
            windows,
        ));
    }
    r
}

/// The hexadecimal digest of a byte string, as the pipeline's checksum
/// step computes it.
pub fn compute_checksum(data: &[u8]) -> (r: String)
    ensures
        r@ == sha256_hex_of(data@),
{
    crate::cask::sha256_hex(data)
}

/// A resolved download, in the model: the selected version, the rendered
/// URL, the declared checksum, the settled extension, and where the
/// download is kept.
pub struct PlanView {
    pub version: Seq<char>,
    pub url: Seq<char>,
    pub checksum: Option<Seq<char>>,
    pub ext: Seq<char>,
    pub download_path: Seq<char>,
}

/// A resolved download: the selected version, the rendered URL, the
/// declared checksum, the settled extension, and where the download is
/// kept.
#[derive(Debug)]
pub struct DownloadPlan {
    pub version: String,
    pub url: String,
    pub checksum: Option<String>,
    pub ext: String,
    pub download_path: String,
}

impl View for DownloadPlan {
    type V = PlanView;

    open spec fn view(&self) -> PlanView {
        PlanView {
            version: self.version@,
            url: self.url@,
            checksum: spec_opt_str(self.checksum),
            ext: self.ext@,
            download_path: self.download_path@,
        }
    }
}

/// How planning a download can end.
pub enum PlanOutcome {
    NoVersions,
    BadConstraint { constraint: Seq<char> },
    NoMatch { constraint: Seq<char> },
    NoPlatform,
    BadUrl { url: Seq<char> },
    Planned { plan: PlanView },
}

/// Where a version's download is kept: the version-directory entry named
/// by version and extension.
pub open spec fn spec_download_path(
    root: Seq<char>,
    name: Seq<char>,
    version: Seq<char>,
    ext: Seq<char>,
) -> Seq<char> {
    spec_join_path(
        spec_join_path(spec_package_dir(root, vstd::utf8::encode_utf8(name)), "version"@),
        version + ext,
    )
}

/// The whole planning step: with no version available the plan fails;
/// the constraint is the caller's pin or the newest version; the first
/// version satisfying it is taken; the platform's resource is resolved
/// and its URL rendered; the extension and checksum are settled.
pub open spec fn spec_plan(
    f: Formula,
    root: Seq<char>,
    requested: Option<Seq<char>>,
    os: Os,
    arch: CpuArch,
    vs: Seq<Seq<char>>,
) -> PlanOutcome {
    if vs.len() == 0 {
        PlanOutcome::NoVersions
    } else {
        let c = match requested {
            Some(x) => x,
            None => vs[0],
        };
        if !req_parses(c) {
            PlanOutcome::BadConstraint { constraint: c }
        } else {
            match spec_first_version_match(vs, c) {
                None => PlanOutcome::NoMatch { constraint: c },
                Some(i) => {
                    let ver = vs[i];
                    match spec_target_of(f, os, arch) {
                        None => PlanOutcome::NoPlatform,
                        Some(rt) => {
                            let url = spec_render(
                                spec_target_url(rt),
                                f.package.name@,
                                f.package.bin@,
                                ver,
                            );
                            match spec_ext_choice(rt, url) {
                                None => PlanOutcome::BadUrl { url },
                                Some(ext) => PlanOutcome::Planned {
                                    plan: PlanView {
                                        version: ver,
                                        url,
                                        checksum: spec_target_checksum(rt),
                                        ext,
                                        download_path: spec_download_path(
                                            root,
                                            f.package.name@,
                                            ver,
                                            ext,
                                        ),
                                    },
                                },
                            }
                        },
                    }
                },
            }
        }
    }
}

/// Plans the download: picks the version the caller pinned, or the
/// newest, among the given versions; resolves the platform's download
/// target for it; and names the file the download will be kept in.
pub fn plan_download(
    store: &Cask,
    formula: &Formula,
    requested: &Option<String>,
    os: Os,
    arch: CpuArch,
    versions: &Vec<String>,
) -> (r: Result<DownloadPlan, InstallError>)
    ensures
        match spec_plan(
            *formula,
            store.spec_root(),
            spec_opt_str(*requested),
            os,
            arch,
            versions@.map_values(|s: String| s@),
        ) {
            PlanOutcome::NoVersions => (r matches Err(InstallError::NoVersionsAvailable { name })
                && name@ == formula.package.name@),
            PlanOutcome::BadConstraint { constraint } => (r matches Err(
                InstallError::InvalidVersionConstraint { constraint: c },
            ) && c@ == constraint),
            PlanOutcome::NoMatch { constraint } => (r matches Err(
                InstallError::VersionNotFound { constraint: c },
            ) && c@ == constraint),
            PlanOutcome::NoPlatform => (r matches Err(InstallError::UnsupportedPlatform { name })
                && name@ == formula.package.name@),
            PlanOutcome::BadUrl { url } => (r matches Err(InstallError::InvalidUrl { url: u })
                && u@ == url),
            PlanOutcome::Planned { plan } => (r matches Ok(p) && p@ == plan),
        },
{
    let ghost vviews = versions@.map_values(|s: String| s@);
    if versions.len() == 0 {
        return Err(InstallError::NoVersionsAvailable { name: formula.package.name.clone() });
    }
    let constraint: String = match requested {
        Some(c) => c.clone(),
        None => {
            proof {
                assert(vviews[0] == versions@[0]@);
            }
            versions[0].clone()
        },
    };
    let version: String = match select_version(constraint.as_str(), versions) {
        Ok(v) => v,
        Err(SelectError::InvalidConstraint) => {
            return Err(InstallError::InvalidVersionConstraint { constraint });
        },
        Err(SelectError::NoMatch) => {
            return Err(InstallError::VersionNotFound { constraint });
        },
    };
    let target: DownloadTarget = match formula.get_current_download_url(
        os,
        arch,
        version.as_str(),
    ) {
        Ok(t) => t,
        Err(crate::formula::FormulaError::UnsupportedPlatform { name }) => {
            return Err(InstallError::UnsupportedPlatform { name });
        },
        Err(crate::formula::FormulaError::InvalidUrl { url }) => {
            return Err(InstallError::InvalidUrl { url });
        },
        Err(crate::formula::FormulaError::NotSupportedProtocol { .. })
        | Err(crate::formula::FormulaError::MissingCask { .. }) => {
            // target resolution yields neither of these failures
            proof {
                assert(false);
            }
            return Err(InstallError::NoVersionsAvailable { name: formula.package.name.clone() });
        },
    };
    let dp = store.download_path(
        formula.package.name.as_str(),
        version.as_str(),
        target.ext.as_str(),
    );
    Ok(
        DownloadPlan {
            version,
            url: target.url,
            checksum: target.checksum,
            ext: target.ext,
            download_path: dp,
        },
    )
}

/// Everything an installation holds fixed while it runs: the store, the
/// formula, the caller's version pin, the machine, and the timestamp to
/// stamp the metadata with.
pub struct InstallContext {
    pub store: Cask,
    pub formula: Formula,
    pub requested_version: Option<String>,
    pub os: Os,
    pub arch: CpuArch,
    pub windows: bool,
    pub created_at: String,
}

/// Where the pipeline stands.
#[derive(Debug)]
pub enum InstallState {
    CheckingConflicts,
    RunningPreHook,
    ResolvingVersions,
    Downloading { plan: DownloadPlan },
    VerifyingChecksum { plan: DownloadPlan },
    Extracting { plan: DownloadPlan },
    Linking { plan: DownloadPlan, output_path: String },
    PersistingMetadata { plan: DownloadPlan },
    RunningPostHook,
    Done,
    Failed { error: InstallError },
}

/// What the caller reports back after performing an action.
#[derive(Debug)]
pub enum InstallEvent {
    InstalledListed { installed: Vec<Formula> },
    HookRan { outcome: Result<(), String> },
    VersionsComputed { versions: Vec<String> },
    Downloaded { outcome: Result<(), String> },
    Checksummed { digest: String },
    Extracted { outcome: Result<String, String> },
    Linked { outcome: Result<(), String> },
    MetadataWritten { outcome: Result<(), String> },
}

/// What the pipeline asks the caller to do next.
#[derive(Debug)]
pub enum InstallAction {
    ListInstalled,
    RunHook { moment: String, cwd: String },
    ComputeVersions,
    Download { url: String, dest: String },
    ComputeChecksum { path: String },
    ExtractArchive { archive: String, dest_dir: String, filename: String, folder: String },
    Link { src: String, dest: String, package: String },
    WriteMetadata { path: String, content: String },
    DeleteFile { path: String },
    NoOp,
}

/// An action that reaches the network: discovering versions, or
/// downloading the artifact.
pub open spec fn spec_network_action(a: InstallAction) -> bool {
    a is ComputeVersions || a is Download
}

/// The event each state waits for.
pub open spec fn spec_expected(state: InstallState, event: InstallEvent) -> bool {
    match (state, event) {
        (InstallState::CheckingConflicts, InstallEvent::InstalledListed { .. }) => true,
        (InstallState::RunningPreHook, InstallEvent::HookRan { .. }) => true,
        (InstallState::ResolvingVersions, InstallEvent::VersionsComputed { .. }) => true,
        (InstallState::Downloading { .. }, InstallEvent::Downloaded { .. }) => true,
        (InstallState::VerifyingChecksum { .. }, InstallEvent::Checksummed { .. }) => true,
        (InstallState::Extracting { .. }, InstallEvent::Extracted { .. }) => true,
        (InstallState::Linking { .. }, InstallEvent::Linked { .. }) => true,
        (InstallState::PersistingMetadata { .. }, InstallEvent::MetadataWritten { .. }) => true,
        (InstallState::RunningPostHook, InstallEvent::HookRan { .. }) => true,
        _ => false,
    }
}

/// The package's checked-out repository directory, where hooks run.
pub open spec fn spec_repo_dir(root: Seq<char>, name: Seq<char>) -> Seq<char> {
    spec_join_path(spec_package_dir(root, vstd::utf8::encode_utf8(name)), "repository"@)
}

/// The unpacked executable's file name: the declared binary name, with
/// the executable suffix on Windows.
pub open spec fn spec_exe_name(bin: Seq<char>, windows: bool) -> Seq<char> {
    if windows {
        bin + ".exe"@
    } else {
        bin
    }
}

/// One step of the installation pipeline: consumes the event the state
/// waited for, decides, and answers with the next state and the next
/// action.  The conflict check is decided first, and an action that
/// reaches the network is only ever issued after it has passed; a
/// checksum mismatch deletes the download as it fails.
#[verifier::rlimit(50)]
pub fn install_step(ctx: &InstallContext, state: InstallState, event: InstallEvent) -> (r: (
    InstallState,
    InstallAction,
))
    ensures
        !spec_expected(state, event) ==> r.0 == state && r.1 is NoOp,
        spec_network_action(r.1) ==> (state is RunningPreHook || state is ResolvingVersions),
        state is CheckingConflicts ==> (event matches InstallEvent::InstalledListed { installed }
            ==> match spec_first_conflict(
            installed@,
            ctx.formula.package.bin@,
            ctx.formula.package.name@,
        ) {
            Some(i) => (r.0 matches InstallState::Failed {
                error: InstallError::BinaryNameConflict { package, owner },
            } && package@ == ctx.formula.package.name@ && owner@ == spec_owner_name(installed@[i])
                && r.1 is NoOp),
            None => (r.0 is RunningPreHook && (r.1 matches InstallAction::RunHook { moment, cwd }
                && moment@ == "preinstall"@ && cwd@ == spec_repo_dir(
                ctx.store.spec_root(),
                ctx.formula.package.name@,
            ))),
        }),
        state is RunningPreHook ==> (event matches InstallEvent::HookRan { outcome } ==> match outcome {
            Ok(_) => r.0 is ResolvingVersions && r.1 is ComputeVersions,
            Err(m) => (r.0 matches InstallState::Failed {
                error: InstallError::HookFailed { message },
            } && message@ == m@ && r.1 is NoOp),
        }),
        state is ResolvingVersions ==> (event matches InstallEvent::VersionsComputed { versions }
            ==> match spec_plan(
            ctx.formula,
            ctx.store.spec_root(),
            spec_opt_str(ctx.requested_version),
            ctx.os,
            ctx.arch,
            versions@.map_values(|s: String| s@),
        ) {
            PlanOutcome::NoVersions => (r.0 matches InstallState::Failed {
                error: InstallError::NoVersionsAvailable { .. },
            } && r.1 is NoOp),
            PlanOutcome::BadConstraint { constraint } => (r.0 matches InstallState::Failed {
                error: InstallError::InvalidVersionConstraint { constraint: c },
            } && c@ == constraint && r.1 is NoOp),
            PlanOutcome::NoMatch { constraint } => (r.0 matches InstallState::Failed {
                error: InstallError::VersionNotFound { constraint: c },
            } && c@ == constraint && r.1 is NoOp),
            PlanOutcome::NoPlatform => (r.0 matches InstallState::Failed {
                error: InstallError::UnsupportedPlatform { .. },
            } && r.1 is NoOp),
            PlanOutcome::BadUrl { url } => (r.0 matches InstallState::Failed {
                error: InstallError::InvalidUrl { url: u },
            } && u@ == url && r.1 is NoOp),
            PlanOutcome::Planned { plan } => (r.0 matches InstallState::Downloading { plan: p }
                && p@ == plan && (r.1 matches InstallAction::Download { url, dest } && url@
                == plan.url && dest@ == plan.download_path)),
        }),
        state matches InstallState::Downloading { plan } ==> (event matches
            InstallEvent::Downloaded { outcome } ==> match outcome {
            Err(m) => (r.0 matches InstallState::Failed {
                error: InstallError::DownloadFailed { message },
            } && message@ == m@ && r.1 is NoOp),
            Ok(_) => if plan.checksum is Some {
                r.0 matches InstallState::VerifyingChecksum { plan: p } && p == plan && (r.1
                    matches InstallAction::ComputeChecksum { path } && path@
                    == plan.download_path@)
            } else {
                r.0 matches InstallState::Extracting { plan: p } && p == plan && (r.1 matches
                    InstallAction::ExtractArchive { archive, dest_dir, filename, folder }
                    && archive@ == plan.download_path@ && dest_dir@ == spec_join_path(
                    spec_package_dir(
                        ctx.store.spec_root(),
                        vstd::utf8::encode_utf8(ctx.formula.package.name@),
                    ),
                    "bin"@,
                ) && filename@ == spec_exe_name(ctx.formula.package.bin@, ctx.windows) && folder@
                    == "/"@)
            },
        }),
        state matches InstallState::VerifyingChecksum { plan } ==> (event matches
            InstallEvent::Checksummed { digest } ==> match plan.checksum {
            Some(c) => if spec_lower(c@) == spec_lower(digest@) {
                r.0 matches InstallState::Extracting { plan: p } && p == plan && (r.1 matches
                    InstallAction::ExtractArchive { archive, filename, folder, .. } && archive@
                    == plan.download_path@ && filename@ == spec_exe_name(
                    ctx.formula.package.bin@,
                    ctx.windows,
                ) && folder@ == "/"@)
            } else {
                r.0 matches InstallState::Failed {
                    error: InstallError::ChecksumMismatch { actual, expected },
                } && actual@ == digest@ && expected@ == c@ && (r.1 matches
                    InstallAction::DeleteFile { path } && path@ == plan.download_path@)
            },
            None => (r.0 matches InstallState::Extracting { plan: p } && p == plan),
        }),
        state matches InstallState::Extracting { plan } ==> (event matches
            InstallEvent::Extracted { outcome } ==> match outcome {
            Err(m) => (r.0 matches InstallState::Failed {
                error: InstallError::ExtractFailed { message },
            } && message@ == m@ && r.1 is NoOp),
            Ok(out_path) => (r.0 matches InstallState::Linking { plan: p, output_path } && p
                == plan && output_path@ == out_path@ && (r.1 matches InstallAction::Link {
                src,
                dest,
                package,
            } && src@ == out_path@ && dest@ == spec_join_path(
                spec_join_path(ctx.store.spec_root(), "bin"@),
                ctx.formula.package.bin@,
            ) && package@ == ctx.formula.package.name@)),
        }),
        state matches InstallState::Linking { plan, .. } ==> (event matches InstallEvent::Linked {
            outcome,
        } ==> match outcome {
            Err(m) => (r.0 matches InstallState::Failed {
                error: InstallError::LinkFailed { message },
            } && message@ == m@ && r.1 is NoOp),
            Ok(_) => (r.0 matches InstallState::PersistingMetadata { plan: p } && p == plan && (r.1
                matches InstallAction::WriteMetadata { path, content } && path@ == spec_join_path(
                spec_package_dir(
                    ctx.store.spec_root(),
                    vstd::utf8::encode_utf8(ctx.formula.package.name@),
                ),
                "Cask.toml"@,
            ) && content@ == spec_cask_block(
                ctx.formula.package.name@,
                ctx.created_at@,
                plan.version@,
                ctx.formula.repository@,
            ) + ctx.formula.file_content@)),
        }),
        state is PersistingMetadata ==> (event matches InstallEvent::MetadataWritten { outcome }
            ==> match outcome {
            Err(m) => (r.0 matches InstallState::Failed {
                error: InstallError::MetadataFailed { message },
            } && message@ == m@ && r.1 is NoOp),
            Ok(_) => (r.0 is RunningPostHook && (r.1 matches InstallAction::RunHook {
                moment,
                cwd,
            } && moment@ == "postinstall"@ && cwd@ == spec_repo_dir(
                ctx.store.spec_root(),
                ctx.formula.package.name@,
            ))),
        }),
        state is RunningPostHook ==> (event matches InstallEvent::HookRan { outcome } ==> match outcome {
            Ok(_) => r.0 is Done && r.1 is NoOp,
            Err(m) => (r.0 matches InstallState::Failed {
                error: InstallError::HookFailed { message },
            } && message@ == m@ && r.1 is NoOp),
        }),
{
    match (state, event) {
        (InstallState::CheckingConflicts, InstallEvent::InstalledListed { installed }) => {
            match check_bin_conflict(&ctx.formula, &installed) {
                Err(e) => (InstallState::Failed { error: e }, InstallAction::NoOp),
                Ok(_) => {
                    let pdir = ctx.store.package_dir(ctx.formula.package.name.as_str());
                    let cwd = crate::text::join_path(pdir.as_str(), "repository");
                    (
                        InstallState::RunningPreHook,
                        InstallAction::RunHook { moment: String::from_str("preinstall"), cwd },
                    )
                },
            }
        },
        (InstallState::RunningPreHook, InstallEvent::HookRan { outcome }) => {
            match outcome {
                Ok(_) => (InstallState::ResolvingVersions, InstallAction::ComputeVersions),
                Err(m) => (
                    InstallState::Failed { error: InstallError::HookFailed { message: m } },
                    InstallAction::NoOp,
                ),
            }
        },
        (InstallState::ResolvingVersions, InstallEvent::VersionsComputed { versions }) => {
            match plan_download(
                &ctx.store,
                &ctx.formula,
                &ctx.requested_version,
                ctx.os,
                ctx.arch,
                &versions,
            ) {
                Err(e) => (InstallState::Failed { error: e }, InstallAction::NoOp),
                Ok(plan) => {
                    let url = plan.url.clone();
                    let dest = plan.download_path.clone();
                    (InstallState::Downloading { plan }, InstallAction::Download { url, dest })
                },
            }
        },
        (InstallState::Downloading { plan }, InstallEvent::Downloaded { outcome }) => {
            match outcome {
                Err(m) => (
                    InstallState::Failed { error: InstallError::DownloadFailed { message: m } },
                    InstallAction::NoOp,
                ),
                Ok(_) => {
                    if plan.checksum.is_some() {
                        let path = plan.download_path.clone();
                        (
                            InstallState::VerifyingChecksum { plan },
                            InstallAction::ComputeChecksum { path },
                        )
                    } else {
                        let action = extract_action(ctx, &plan);
                        (InstallState::Extracting { plan }, action)
                    }
                },
            }
        },
        (InstallState::VerifyingChecksum { plan }, InstallEvent::Checksummed { digest }) => {
            match verify_checksum(&plan.checksum, digest.as_str()) {
                Ok(_) => {
                    let action = extract_action(ctx, &plan);
                    (InstallState::Extracting { plan }, action)
                },
                Err(e) => {
                    let path = plan.download_path.clone();
                    (InstallState::Failed { error: e }, InstallAction::DeleteFile { path })
                },
            }
        },
        (InstallState::Extracting { plan }, InstallEvent::Extracted { outcome }) => {
            match outcome {
                Err(m) => (
                    InstallState::Failed { error: InstallError::ExtractFailed { message: m } },
                    InstallAction::NoOp,
                ),
                Ok(out_path) => {
                    let bin_dir = ctx.store.bin_dir();
                    let dest = crate::text::join_path(
                        bin_dir.as_str(),
                        ctx.formula.package.bin.as_str(),
                    );
                    let src = out_path.clone();
                    let package = ctx.formula.package.name.clone();
                    (
                        InstallState::Linking { plan, output_path: out_path },
                        InstallAction::Link { src, dest, package },
                    )
                },
            }
        },
        (InstallState::Linking { plan, output_path: _ }, InstallEvent::Linked { outcome }) => {
            match outcome {
                Err(m) => (
                    InstallState::Failed { error: InstallError::LinkFailed { message: m } },
                    InstallAction::NoOp,
                ),
                Ok(_) => {
                    let pdir = ctx.store.package_dir(ctx.formula.package.name.as_str());
                    let path = crate::text::join_path(pdir.as_str(), "Cask.toml");
                    let content = stamped_manifest(
                        &ctx.formula,
                        plan.version.as_str(),
                        ctx.created_at.as_str(),
                    );
                    (
                        InstallState::PersistingMetadata { plan },
                        InstallAction::WriteMetadata { path, content },
                    )
                },
            }
        },
        (InstallState::PersistingMetadata { plan: _ }, InstallEvent::MetadataWritten {
            outcome,
        }) => {
            match outcome {
                Err(m) => (
                    InstallState::Failed { error: InstallError::MetadataFailed { message: m } },
                    InstallAction::NoOp,
                ),
                Ok(_) => {
                    let pdir = ctx.store.package_dir(ctx.formula.package.name.as_str());
                    let cwd = crate::text::join_path(pdir.as_str(), "repository");
                    (
                        InstallState::RunningPostHook,
                        InstallAction::RunHook { moment: String::from_str("postinstall"), cwd },
                    )
                },
            }
        },
        (InstallState::RunningPostHook, InstallEvent::HookRan { outcome }) => {
            match outcome {
                Ok(_) => (InstallState::Done, InstallAction::NoOp),
                Err(m) => (
                    InstallState::Failed { error: InstallError::HookFailed { message: m } },
                    InstallAction::NoOp,
                ),
            }
        },
        (s, _) => (s, InstallAction::NoOp),
    }
}

/// The extraction the pipeline asks for: the downloaded archive, the
/// package's bin directory, the executable's file name, at the archive
/// root.
fn extract_action(ctx: &InstallContext, plan: &DownloadPlan) -> (r: InstallAction)
    ensures
        r matches InstallAction::ExtractArchive { archive, dest_dir, filename, folder } && {
            &&& archive@ == plan.download_path@
            &&& dest_dir@ == spec_join_path(
                spec_package_dir(
                    ctx.store.spec_root(),
                    vstd::utf8::encode_utf8(ctx.formula.package.name@),
                ),
                "bin"@,
            )
            &&& filename@ == spec_exe_name(ctx.formula.package.bin@, ctx.windows)
            &&& folder@ == "/"@
        },
{
    let archive = plan.download_path.clone();
    let dest_dir = ctx.store.package_bin_dir(ctx.formula.package.name.as_str());
    let filename = if ctx.windows {
        String::from_str(ctx.formula.package.bin.as_str()).concat(".exe")
    } else {
        ctx.formula.package.bin.clone()
    };
    InstallAction::ExtractArchive {
        archive,
        dest_dir,
        filename,
        folder: String::from_str("/"),
    }
}

/// What an upgrade should do: nothing when the newest remote version
/// does not precede the installed one, else install the newest.
#[derive(Debug)]
pub enum UpgradeDecision {
    UpToDate,
    Install { version: String },
}

/// Decides an upgrade from the installed version and the remote list,
/// newest first.  An installed version that is not a semantic version is
/// refused; an empty remote list means no version is available; an
/// unparseable newest remote version is refused.
pub fn upgrade_plan(package_name: &str, current_version: &str, remote: &Vec<String>) -> (r: Result<
    UpgradeDecision,
    InstallError,
>)
    ensures
        semver_of(current_version@) is None ==> (r matches Err(
            InstallError::InvalidVersion { version },
        ) && version@ == current_version@),
        semver_of(current_version@) matches Some(cur) ==> {
            &&& remote@.len() == 0 ==> (r matches Err(InstallError::NoVersionsAvailable { name })
                && name@ == package_name@)
            &&& remote@.len() > 0 ==> match semver_of(remote@[0]@) {
                None => (r matches Err(InstallError::InvalidVersion { version }) && version@
                    == remote@[0]@),
                Some(latest) => {
                    &&& !spec_version_lt(cur, latest) ==> (r matches Ok(d) && d is UpToDate)
                    &&& spec_version_lt(cur, latest) ==> (r matches Ok(d) && d matches
                        UpgradeDecision::Install { version } && version@ == remote@[0]@)
                },
            }
        },
{
    let cur = match semver_parse(current_version) {
        Some(v) => v,
        None => {
            return Err(InstallError::InvalidVersion { version: current_version.to_owned() });
        },
    };
    if remote.len() == 0 {
        return Err(InstallError::NoVersionsAvailable { name: package_name.to_owned() });
    }
    let latest = match semver_parse(remote[0].as_str()) {
        Some(v) => v,
        None => {
            return Err(InstallError::InvalidVersion { version: remote[0].clone() });
        },
    };
    if version_lt(&cur, &latest) {
        Ok(UpgradeDecision::Install { version: remote[0].clone() })
    } else {
        Ok(UpgradeDecision::UpToDate)
    }
}

} // verus!

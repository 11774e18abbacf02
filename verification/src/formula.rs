//! The formula: a parsed manifest describing one package — its identity,
//! its executable, and a download location per operating system and CPU
//! architecture — together with what was learned while fetching it.
//!
//! Resolving a download target picks the platform block for the running
//! system, the resource for the running architecture, renders the URL
//! template, and settles the archive extension and checksum.  Version
//! discovery prefers the manifest's own version list and otherwise ranks
//! the repository's tags.

use vstd::prelude::*;

use crate::cask::sha256_hex_of;
use crate::hooker::Hook;
use crate::repo::{GitError, GitTag};
use crate::text::{
    copy_strings, ends_with, from_chars, matches_at, push_all, spec_dec, spec_ends_with,
    spec_join_path, spec_starts_with, to_chars,
};
use crate::version::{
    spec_is_stable_version, spec_sorted_desc, spec_surviving, versions_from_tags,
};
use vstd::string::StringSliceAdditionalSpecFns;

verus! {

/// An operating system a platform block can name.
#[derive(Clone, Copy, PartialEq, Eq, Structural, Debug)]
pub enum Os {
    Windows,
    Darwin,
    Linux,
}

/// A CPU architecture a resource entry can name.
#[derive(Clone, Copy, PartialEq, Eq, Structural, Debug)]
pub enum CpuArch {
    X86,
    X86_64,
    Arm,
    Aarch64,
    Mips,
    Mips64,
    Mips64el,
}

/// A failure while resolving a formula or its download target.
#[derive(Debug)]
pub enum FormulaError {
    UnsupportedPlatform { name: String },
    InvalidUrl { url: String },
    NotSupportedProtocol { scheme: String },
    MissingCask { name: String },
}

/// The post-install provenance record a stored manifest carries.
#[derive(Debug)]
pub struct Cask {
    pub name: String,
    pub created_at: String,
    pub version: String,
    pub repository: String,
}

/// A dependency declaration: a bare version, or a detailed record.
#[derive(Debug)]
pub enum Dependencies {
    Detail(DependenciesDetail),
    Simple(String),
}

/// The detailed form of a dependency declaration.
#[derive(Debug)]
pub struct DependenciesDetail {
    pub version: String,
}

/// The package identity a manifest declares.
#[derive(Debug)]
pub struct Package {
    pub name: String,
    pub bin: String,
    pub versions: Option<Vec<String>>,
    pub authors: Vec<String>,
    pub keywords: Option<Vec<String>>,
    pub repository: String,
    pub description: String,
    pub license: Option<String>,
}

/// A download descriptor: a bare templated URL, or a detailed record
/// with an optional checksum and explicit extension.
#[derive(Debug)]
pub enum ResourceTarget {
    Detailed(Arch),
    Simple(String),
}

/// The detailed form of a download descriptor.
#[derive(Debug)]
pub struct Arch {
    pub url: String,
    pub checksum: Option<String>,
    pub extension: Option<String>,
}

/// One operating system's resources, by CPU architecture.
#[derive(Debug)]
pub struct Platform {
    pub x86: Option<ResourceTarget>,
    pub x86_64: Option<ResourceTarget>,
    pub arm: Option<ResourceTarget>,
    pub aarch64: Option<ResourceTarget>,
    pub mips: Option<ResourceTarget>,
    pub mips64: Option<ResourceTarget>,
    pub mips64el: Option<ResourceTarget>,
}

/// A parsed manifest with the metadata attached after parsing: the raw
/// file text, the repository it came from, and where the file lies.
#[derive(Debug)]
pub struct Formula {
    pub file_content: String,
    pub repository: String,
    pub filepath: String,
    pub cask: Option<Cask>,
    pub package: Package,
    pub windows: Option<Platform>,
    pub darwin: Option<Platform>,
    pub linux: Option<Platform>,
    pub dependencies: Option<Vec<(String, Dependencies)>>,
    pub hook: Option<Hook>,
}

/// The resolved download target: the rendered URL, the declared
/// checksum, and the settled archive extension.
#[derive(Debug)]
pub struct DownloadTarget {
    pub url: String,
    pub checksum: Option<String>,
    pub ext: String,
}

/// The view of an optional string.
pub open spec fn spec_opt_str(o: Option<String>) -> Option<Seq<char>> {
    match o {
        Some(s) => Some(s@),
        None => None,
    }
}

/// The URL template's placeholder for the package name.
pub open spec fn spec_pat_name() -> Seq<char> {
    seq!['{', 'n', 'a', 'm', 'e', '}']
}

/// The URL template's placeholder for the executable name.
pub open spec fn spec_pat_bin() -> Seq<char> {
    seq!['{', 'b', 'i', 'n', '}']
}

/// The URL template's placeholder for the requested version.
pub open spec fn spec_pat_version() -> Seq<char> {
    seq!['{', 'v', 'e', 'r', 's', 'i', 'o', 'n', '}']
}

/// The template with its three named placeholders substituted verbatim,
/// in one pass from the left; any other text, including an unresolved
/// name, stays as it stands.
pub open spec fn spec_render(
    s: Seq<char>,
    name: Seq<char>,
    bin: Seq<char>,
    version: Seq<char>,
) -> Seq<char>
    decreases s.len(),
{
    if s.len() == 0 {
        s
    } else if spec_starts_with(s, spec_pat_name()) {
        name + spec_render(s.skip(6), name, bin, version)
    } else if spec_starts_with(s, spec_pat_bin()) {
        bin + spec_render(s.skip(5), name, bin, version)
    } else if spec_starts_with(s, spec_pat_version()) {
        version + spec_render(s.skip(9), name, bin, version)
    } else {
        seq![s[0]] + spec_render(s.skip(1), name, bin, version)
    }
}

/// Renders a URL template, substituting the three named placeholders.
pub fn render_template(s: &str, name: &str, bin: &str, version: &str) -> (r: String)
    ensures
        r@ == spec_render(s@, name@, bin@, version@),
{
    let chars = to_chars(s);
    let name_c = to_chars(name);
    let bin_c = to_chars(bin);
    let ver_c = to_chars(version);
    let pat_name = to_chars("{name}");
    let pat_bin = to_chars("{bin}");
    let pat_version = to_chars("{version}");
    proof {
        reveal_strlit("{name}");
        reveal_strlit("{bin}");
        reveal_strlit("{version}");
        assert(pat_name@ =~= spec_pat_name());
        assert(pat_bin@ =~= spec_pat_bin());
        assert(pat_version@ =~= spec_pat_version());
        assert(chars@.skip(0) =~= chars@);
    }
    let mut out: Vec<char> = Vec::new();
    let mut i: usize = 0;
    let ghost goal = spec_render(s@, name@, bin@, version@);
    while i < chars.len()
        invariant
            chars@ == s@,
            name_c@ == name@,
            bin_c@ == bin@,
            ver_c@ == version@,
            pat_name@ == spec_pat_name(),
            pat_bin@ == spec_pat_bin(),
            pat_version@ == spec_pat_version(),
            i <= chars@.len(),
            goal == spec_render(s@, name@, bin@, version@),
            goal == out@ + spec_render(chars@.skip(i as int), name@, bin@, version@),
        decreases chars@.len() - i,
    {
        let ghost rest = chars@.skip(i as int);
        proof {
            if rest.len() >= 6 {
                assert(rest.subrange(0, 6) =~= chars@.subrange(i as int, i + 6));
            }
            if rest.len() >= 5 {
                assert(rest.subrange(0, 5) =~= chars@.subrange(i as int, i + 5));
            }
            if rest.len() >= 9 {
                assert(rest.subrange(0, 9) =~= chars@.subrange(i as int, i + 9));
            }
            assert(rest[0] == chars@[i as int]);
        }
        if matches_at(&chars, i, &pat_name) {
            push_all(&mut out, &name_c);
            proof {
                assert(rest.skip(6) =~= chars@.skip(i + 6));
            }
            i = i + 6;
        } else if matches_at(&chars, i, &pat_bin) {
            push_all(&mut out, &bin_c);
            proof {
                assert(rest.skip(5) =~= chars@.skip(i + 5));
            }
            i = i + 5;
        } else if matches_at(&chars, i, &pat_version) {
            push_all(&mut out, &ver_c);
            proof {
                assert(rest.skip(9) =~= chars@.skip(i + 9));
            }
            i = i + 9;
        } else {
            out.push(chars[i]);
            proof {
                assert(rest.skip(1) =~= chars@.skip(i + 1));
                assert(out@ =~= (out@.drop_last() + seq![chars@[i as int]]));
            }
            i = i + 1;
        }
    }
    proof {
        assert(chars@.skip(i as int) =~= Seq::<char>::empty());
        assert(out@ + Seq::<char>::empty() =~= out@);
    }
    from_chars(&out)
}

/// What url::Url::parse finds as the scheme of a text, or nothing when
/// the text is not an absolute URL.
pub uninterp spec fn url_scheme_of(s: Seq<char>) -> Option<Seq<char>>;

/// Relies on url::Url::parse and url::Url::scheme: the scheme is a
/// function of the text alone.
#[verifier::external_body]
fn url_scheme(s: &str) -> (r: Option<String>)
    ensures
        (r is Some) == (url_scheme_of(s@) is Some),
        r matches Some(v) ==> Some(v@) == url_scheme_of(s@),
{
    match url::Url::parse(s) {
        Ok(u) => Some(u.scheme().to_string()),
        Err(_) => None,
    }
}

/// What url::Url::parse and path_segments find as the last path segment
/// of a URL: nothing when the text is not an absolute URL, an empty
/// inner value when the URL has no segmented path, else the segment.
pub uninterp spec fn url_last_segment_of(s: Seq<char>) -> Option<Option<Seq<char>>>;

/// Relies on url::Url::parse and url::Url::path_segments: the last path
/// segment is a function of the text alone.
#[verifier::external_body]
fn url_last_segment(s: &str) -> (r: Option<Option<String>>)
    ensures
        (r is None) == (url_last_segment_of(s@) is None),
        r matches Some(o) ==> match o {
            None => url_last_segment_of(s@) == Some(Option::<Seq<char>>::None),
            Some(v) => url_last_segment_of(s@) == Some(Some(v@)),
        },
{
    match url::Url::parse(s) {
        Err(_) => None,
        Ok(u) => match u.path_segments() {
            None => Some(None),
            Some(segs) => Some(Some(segs.last().unwrap_or("").to_string())),
        },
    }
}

/// The extension a file name announces: one of the four known archive
/// suffixes, or the default compressed-tar extension.
pub open spec fn spec_sniff_ext(seg: Seq<char>) -> Seq<char> {
    if spec_ends_with(seg, ".tar.gz"@) {
        ".tar.gz"@
    } else if spec_ends_with(seg, ".tgz"@) {
        ".tgz"@
    } else if spec_ends_with(seg, ".tar"@) {
        ".tar"@
    } else if spec_ends_with(seg, ".zip"@) {
        ".zip"@
    } else {
        ".tar.gz"@
    }
}

/// Reads the extension off a file name.
fn sniff_ext(seg: &str) -> (r: String)
    ensures
        r@ == spec_sniff_ext(seg@),
{
    if ends_with(seg, ".tar.gz") {
        String::from_str(".tar.gz")
    } else if ends_with(seg, ".tgz") {
        String::from_str(".tgz")
    } else if ends_with(seg, ".tar") {
        String::from_str(".tar")
    } else if ends_with(seg, ".zip") {
        String::from_str(".zip")
    } else {
        String::from_str(".tar.gz")
    }
}

/// The extension the rendered URL yields: the default when the URL has
/// no segmented path, the sniffed suffix of the last segment otherwise;
/// nothing when the URL does not parse.
pub open spec fn spec_resolved_ext(url: Seq<char>) -> Option<Seq<char>> {
    match url_last_segment_of(url) {
        None => None,
        Some(o) => match o {
            None => Some(".tar.gz"@),
            Some(seg) => Some(spec_sniff_ext(seg)),
        },
    }
}

/// The URL template a resource declares.
pub open spec fn spec_target_url(rt: ResourceTarget) -> Seq<char> {
    match rt {
        ResourceTarget::Detailed(a) => a.url@,
        ResourceTarget::Simple(u) => u@,
    }
}

/// The checksum a resource declares, if any.
pub open spec fn spec_target_checksum(rt: ResourceTarget) -> Option<Seq<char>> {
    match rt {
        ResourceTarget::Detailed(a) => spec_opt_str(a.checksum),
        ResourceTarget::Simple(_) => None,
    }
}

/// The extension the resource settles on: the declared one when the
/// detailed record names it, else what the rendered URL yields.
pub open spec fn spec_ext_choice(rt: ResourceTarget, url: Seq<char>) -> Option<Seq<char>> {
    match rt {
        ResourceTarget::Detailed(a) => match a.extension {
            Some(e) => Some(e@),
            None => spec_resolved_ext(url),
        },
        ResourceTarget::Simple(_) => spec_resolved_ext(url),
    }
}

/// The platform block of a formula for an operating system.
pub open spec fn spec_platform_of(f: Formula, os: Os) -> Option<Platform> {
    match os {
        Os::Windows => f.windows,
        Os::Darwin => f.darwin,
        Os::Linux => f.linux,
    }
}

/// The resource a platform block holds for a CPU architecture.
pub open spec fn spec_platform_get(p: Platform, arch: CpuArch) -> Option<ResourceTarget> {
    match arch {
        CpuArch::X86 => p.x86,
        CpuArch::X86_64 => p.x86_64,
        CpuArch::Arm => p.arm,
        CpuArch::Aarch64 => p.aarch64,
        CpuArch::Mips => p.mips,
        CpuArch::Mips64 => p.mips64,
        CpuArch::Mips64el => p.mips64el,
    }
}

/// The resource a formula holds for a system and architecture.
pub open spec fn spec_target_of(f: Formula, os: Os, arch: CpuArch) -> Option<ResourceTarget> {
    match spec_platform_of(f, os) {
        None => None,
        Some(p) => spec_platform_get(p, arch),
    }
}

impl Platform {
    /// The resource for a CPU architecture, by keyed lookup.
    pub fn get(&self, arch: CpuArch) -> (r: &Option<ResourceTarget>)
        ensures
            *r == spec_platform_get(*self, arch),
    {
        match arch {
            CpuArch::X86 => &self.x86,
            CpuArch::X86_64 => &self.x86_64,
            CpuArch::Arm => &self.arm,
            CpuArch::Aarch64 => &self.aarch64,
            CpuArch::Mips => &self.mips,
            CpuArch::Mips64 => &self.mips64,
            CpuArch::Mips64el => &self.mips64el,
        }
    }
}

/// What the version list may rest on: the repository's tag listing, or
/// nothing when the repository was not consulted or not reachable.
#[derive(Debug)]
pub enum RemoteVersions {
    Unavailable,
    Tags(Vec<GitTag>),
}

impl Formula {
    /// The platform block for an operating system.
    pub fn get_current_os(&self, os: Os) -> (r: &Option<Platform>)
        ensures
            *r == spec_platform_of(*self, os),
    {
        match os {
            Os::Windows => &self.windows,
            Os::Darwin => &self.darwin,
            Os::Linux => &self.linux,
        }
    }

    /// The resource for a system and architecture.
    pub fn get_current_arch(&self, os: Os, arch: CpuArch) -> (r: Option<&ResourceTarget>)
        ensures
            match r {
                Some(rt) => spec_target_of(*self, os, arch) == Some(*rt),
                None => spec_target_of(*self, os, arch) is None,
            },
    {
        match self.get_current_os(os) {
            Some(p) => p.get(arch).as_ref(),
            None => None,
        }
    }

    /// The manifest's raw text.
    pub fn get_file_content(&self) -> (r: String)
        ensures
            r@ == self.file_content@,
    {
        self.file_content.clone()
    }

    /// Resolves the download target for a system, an architecture and a
    /// version: the platform's resource is found, its URL template is
    /// rendered with the package name, the executable name and the
    /// version, and the extension and checksum are settled.  A missing
    /// platform or architecture entry is an unsupported platform; a
    /// rendered URL that does not parse, where the extension must be
    /// sniffed from it, is refused.
    pub fn get_current_download_url(&self, os: Os, arch: CpuArch, version: &str) -> (r: Result<
        DownloadTarget,
        FormulaError,
    >)
        ensures
            spec_target_of(*self, os, arch) is None ==> (r matches Err(
                FormulaError::UnsupportedPlatform { name },
            ) && name@ == self.package.name@),
            spec_target_of(*self, os, arch) matches Some(rt) ==> {
                let url = spec_render(
                    spec_target_url(rt),
                    self.package.name@,
                    self.package.bin@,
                    version@,
                );
                match spec_ext_choice(rt, url) {
                    None => (r matches Err(FormulaError::InvalidUrl { url: u }) && u@ == url),
                    Some(ext) => (r matches Ok(t) && t.url@ == url && t.ext@ == ext && spec_opt_str(
                        t.checksum,
                    ) == spec_target_checksum(rt)),
                }
            },
    {
        let rt = match self.get_current_arch(os, arch) {
            Some(rt) => rt,
            None => {
                return Err(FormulaError::UnsupportedPlatform { name: self.package.name.clone() });
            },
        };
        let template = match rt {
            ResourceTarget::Detailed(a) => a.url.as_str(),
            ResourceTarget::Simple(u) => u.as_str(),
        };
        let rendered = render_template(
            template,
            self.package.name.as_str(),
            self.package.bin.as_str(),
            version,
        );
        let explicit: Option<String> = match rt {
            ResourceTarget::Detailed(a) => match a.extension {
                Some(ref e) => Some(e.clone()),
                None => None,
            },
            ResourceTarget::Simple(_) => None,
        };
        let ext = match explicit {
            Some(e) => e,
            None => match url_last_segment(rendered.as_str()) {
                None => {
                    return Err(FormulaError::InvalidUrl { url: rendered });
                },
                Some(None) => String::from_str(".tar.gz"),
                Some(Some(seg)) => sniff_ext(seg.as_str()),
            },
        };
        let checksum: Option<String> = match rt {
            ResourceTarget::Detailed(a) => match a.checksum {
                Some(ref c) => Some(c.clone()),
                None => None,
            },
            ResourceTarget::Simple(_) => None,
        };
        Ok(DownloadTarget { url: rendered, checksum, ext })
    }

    /// Whether the manifest pins its own version list.
    pub fn has_explicit_versions(&self) -> (r: bool)
        ensures
            r == (self.package.versions is Some),
    {
        self.package.versions.is_some()
    }

    /// The versions of the package.  A manifest with an explicit list
    /// yields that list unchanged, whatever the remote repository's
    /// state; otherwise the repository's tag listing is ranked, and
    /// without one the remote is reported unreachable.
    pub fn get_versions(&self, remote: &RemoteVersions) -> (r: Result<Vec<String>, GitError>)
        ensures
            self.package.versions matches Some(vs) ==> (r matches Ok(v) && v@ == vs@),
            self.package.versions is None ==> match *remote {
                RemoteVersions::Unavailable => (r matches Err(
                    GitError::RemoteRepositoryNotExists { url },
                ) && url@ == self.package.repository@),
                RemoteVersions::Tags(tags) => (r matches Ok(v) && v@.map_values(|s: String| s@)
                    .to_multiset() == spec_surviving(tags@).to_multiset() && spec_sorted_desc(
                    v@.map_values(|s: String| s@),
                ) && (forall|i: int|
                    0 <= i < v@.len() ==> spec_is_stable_version((#[trigger] v@[i])@))),
            },
    {
        match self.package.versions {
            Some(ref vs) => Ok(copy_strings(vs)),
            None => match remote {
                RemoteVersions::Unavailable => Err(
                    GitError::RemoteRepositoryNotExists { url: self.package.repository.clone() },
                ),
                RemoteVersions::Tags(tags) => Ok(versions_from_tags(tags)),
            },
        }
    }

    /// Writes the text shown for this package when it is installed; a
    /// stored manifest without its provenance record is refused.
    pub fn installed_info(&self, location: &str) -> (r: Result<String, FormulaError>)
        ensures
            self.cask is None ==> (r matches Err(FormulaError::MissingCask { name }) && name@
                == self.package.name@),
            self.cask matches Some(c) ==> (r matches Ok(s) && s@ == spec_installed_info(
                self.package.description@,
                c.name@,
                c.version@,
                self.package.repository@,
                location@,
            )),
    {
        match self.cask {
            None => Err(FormulaError::MissingCask { name: self.package.name.clone() }),
            Some(ref c) => {
                let r = String::from_str(self.package.description.as_str()).concat(
                    "\nPackage: ",
                ).concat(c.name.as_str()).concat("\nVersion: ").concat(c.version.as_str()).concat(
                    "\nRepository: ",
                ).concat(self.package.repository.as_str()).concat("\nLocation: ").concat(
                    location,
                ).concat("\nInstalled: true\n");
                proof {
                    assert(r@ =~= spec_installed_info(
                        self.package.description@,
                        self.cask->Some_0.name@,
                        self.cask->Some_0.version@,
                        self.package.repository@,
                        location@,
                    ));
                }
                Ok(r)
            },
        }
    }

    /// Writes the text shown for this package when it is not installed.
    pub fn remote_info(&self) -> (r: String)
        ensures
            r@ == spec_remote_info(
                self.package.description@,
                self.package.name@,
                self.package.repository@,
            ),
    {
        let r = String::from_str(self.package.description.as_str()).concat("\nPackage: ").concat(
            self.package.name.as_str(),
        ).concat("\nRepository: ").concat(self.package.repository.as_str()).concat(
            "\nInstalled: false\n",
        );
        proof {
            assert(r@ =~= spec_remote_info(
                self.package.description@,
                self.package.name@,
                self.package.repository@,
            ));
        }
        r
    }
}

/// The text shown for an installed package: its description, stamped
/// identity and version, repository, and where its manifest lies.
pub open spec fn spec_installed_info(
    description: Seq<char>,
    name: Seq<char>,
    version: Seq<char>,
    repository: Seq<char>,
    location: Seq<char>,
) -> Seq<char> {
    description + "\nPackage: "@ + name + "\nVersion: "@ + version + "\nRepository: "@
        + repository + "\nLocation: "@ + location + "\nInstalled: true\n"@
}

/// The text shown for a package that is not installed: its description,
/// declared name and repository.
pub open spec fn spec_remote_info(
    description: Seq<char>,
    name: Seq<char>,
    repository: Seq<char>,
) -> Seq<char> {
    description + "\nPackage: "@ + name + "\nRepository: "@ + repository
        + "\nInstalled: false\n"@
}

/// The conventional repository address of a package's dedicated formula
/// repository.
pub fn get_formula_git_cask_url(package_name: &str) -> (r: String)
    ensures
        r@ == "https://"@ + package_name@ + "-cask.git"@,
{
    let r = String::from_str("https://").concat(package_name).concat("-cask.git");
    proof {
        assert(r@ =~= "https://"@ + package_name@ + "-cask.git"@);
    }
    r
}

/// The conventional repository address of the package itself.
pub fn get_formula_git_url(package_name: &str) -> (r: String)
    ensures
        r@ == "https://"@ + package_name@ + ".git"@,
{
    let r = String::from_str("https://").concat(package_name).concat(".git");
    proof {
        assert(r@ =~= "https://"@ + package_name@ + ".git"@);
    }
    r
}

/// Where a formula is looked for: at a literal repository address, or at
/// the two conventional addresses a bare name yields, dedicated formula
/// repository first.
#[derive(Debug)]
pub enum FetchProbe {
    Url { url: String },
    Named { cask_url: String, plain_url: String },
}

/// Decides where to look for a package's formula.  A package written as
/// an absolute URL must use the web protocols and is probed as it
/// stands; a bare name is probed at its two conventional addresses.
pub fn fetch_probe(package_name: &str) -> (r: Result<FetchProbe, FormulaError>)
    ensures
        match url_scheme_of(package_name@) {
            Some(sch) => {
                &&& (sch == "http"@ || sch == "https"@) ==> (r matches Ok(FetchProbe::Url { url })
                    && url@ == package_name@)
                &&& !(sch == "http"@ || sch == "https"@) ==> (r matches Err(
                    FormulaError::NotSupportedProtocol { scheme },
                ) && scheme@ == sch)
            },
            None => (r matches Ok(FetchProbe::Named { cask_url, plain_url }) && cask_url@
                == "https://"@ + package_name@ + "-cask.git"@ && plain_url@ == "https://"@
                + package_name@ + ".git"@),
        },
{
    match url_scheme(package_name) {
        Some(sch) => {
            if crate::text::str_eq(sch.as_str(), "http") || crate::text::str_eq(
                sch.as_str(),
                "https",
            ) {
                Ok(FetchProbe::Url { url: package_name.to_owned() })
            } else {
                Err(FormulaError::NotSupportedProtocol { scheme: sch })
            }
        },
        None => Ok(
            FetchProbe::Named {
                cask_url: get_formula_git_cask_url(package_name),
                plain_url: get_formula_git_url(package_name),
            },
        ),
    }
}

/// Where a fetched formula's repository is checked out: a fresh
/// timestamped directory under the temporary root for read-only
/// lookups, or the package's permanent repository subdirectory.
pub fn clone_destination(
    store: &crate::cask::Cask,
    package_name: &str,
    temp: bool,
    temp_root: &str,
    unix_time: u64,
) -> (r: String)
    ensures
        temp ==> r@ == spec_join_path(temp_root@, "cask_formula_"@ + spec_dec(unix_time as int)),
        !temp ==> r@ == spec_join_path(
            spec_join_path(
                spec_join_path(store.spec_root(), "formula"@),
                sha256_hex_of(package_name.spec_bytes()),
            ),
            "repository"@,
        ),
{
    if temp {
        let name = String::from_str("cask_formula_").concat(
            crate::text::u64_string(unix_time).as_str(),
        );
        crate::text::join_path(temp_root, name.as_str())
    } else {
        let pdir = store.package_dir(package_name);
        crate::text::join_path(pdir.as_str(), "repository")
    }
}

} // verus!

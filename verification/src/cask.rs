//! The local package store's layout: every path is derived from the root
//! directory, and a package's directory is named by a content hash of the
//! package name, keeping directory names filesystem-safe.

use vstd::prelude::*;

use crate::text::{join_path, spec_join_path};
use vstd::string::StringSliceAdditionalSpecFns;

verus! {

/// The local package store, held by its root directory.
pub struct Cask {
    root: String,
}

/// The hexadecimal digest that names a package directory, as the hash
/// function writes it for the given bytes.
pub uninterp spec fn sha256_hex_of(data: Seq<u8>) -> Seq<char>;

/// Relies on sha2::Sha256: the digest is a function of the bytes alone.
#[verifier::external_body]
pub(crate) fn sha256_hex(data: &[u8]) -> (r: String)
    ensures
        r@ == sha256_hex_of(data@),
{
    let mut hasher = <sha2::Sha256 as sha2::Digest>::new();
    sha2::Digest::update(&mut hasher, data);
    format!("{:x}", sha2::Digest::finalize(hasher))
}

/// Opens the store at a root directory.
pub fn new(root: &str) -> (r: Cask)
    ensures
        r.spec_root() == root@,
{
    Cask { root: root.to_owned() }
}

impl Cask {
    /// The root the store was opened at.
    pub closed spec fn spec_root(&self) -> Seq<char> {
        self.root@
    }

    /// The store's root directory.
    pub fn root_dir(&self) -> (r: String)
        ensures
            r@ == self.spec_root(),
    {
        self.root.clone()
    }

    /// The directory holding the linked executables.
    pub fn bin_dir(&self) -> (r: String)
        ensures
            r@ == spec_join_path(self.spec_root(), "bin"@),
    {
        join_path(self.root.as_str(), "bin")
    }

    /// The directory holding one subdirectory per installed package.
    pub fn formula_dir(&self) -> (r: String)
        ensures
            r@ == spec_join_path(self.spec_root(), "formula"@),
    {
        join_path(self.root.as_str(), "formula")
    }

    /// The package's directory: the formula directory entry named by the
    /// hash of the package name.
    pub fn package_dir(&self, package_name: &str) -> (r: String)
        ensures
            r@ == spec_join_path(
                spec_join_path(self.spec_root(), "formula"@),
                sha256_hex_of(package_name.spec_bytes()),
            ),
    {
        let hash = sha256_hex(package_name.as_bytes());
        let fdir = self.formula_dir();
        join_path(fdir.as_str(), hash.as_str())
    }

    /// The package's unpacked-executable directory.
    pub fn package_bin_dir(&self, package_name: &str) -> (r: String)
        ensures
            r@ == spec_join_path(
                spec_join_path(
                    spec_join_path(self.spec_root(), "formula"@),
                    sha256_hex_of(package_name.spec_bytes()),
                ),
                "bin"@,
            ),
    {
        let pdir = self.package_dir(package_name);
        join_path(pdir.as_str(), "bin")
    }

    /// The package's retained-download directory.
    pub fn package_version_dir(&self, package_name: &str) -> (r: String)
        ensures
            r@ == spec_join_path(
                spec_join_path(
                    spec_join_path(self.spec_root(), "formula"@),
                    sha256_hex_of(package_name.spec_bytes()),
                ),
                "version"@,
            ),
    {
        let pdir = self.package_dir(package_name);
        join_path(pdir.as_str(), "version")
    }

    /// The directories the store needs at first use: the root, the bin
    /// directory and the formula directory, in creation order.
    pub fn init_dirs(&self) -> (r: Vec<String>)
        ensures
            r@.map_values(|s: String| s@) == seq![
                self.spec_root(),
                spec_join_path(self.spec_root(), "bin"@),
                spec_join_path(self.spec_root(), "formula"@),
            ],
    {
        let mut r: Vec<String> = Vec::new();
        r.push(self.root_dir());
        r.push(self.bin_dir());
        r.push(self.formula_dir());
        proof {
            assert(r@.map_values(|s: String| s@) =~= seq![
                self.spec_root(),
                spec_join_path(self.spec_root(), "bin"@),
                spec_join_path(self.spec_root(), "formula"@),
            ]);
        }
        r
    }

    /// The directories a package needs before an install: its own
    /// directory, its bin directory and its version directory, in
    /// creation order.
    pub fn package_dirs(&self, package_name: &str) -> (r: Vec<String>)
        ensures
            ({
                let pdir = spec_join_path(
                    spec_join_path(self.spec_root(), "formula"@),
                    sha256_hex_of(package_name.spec_bytes()),
                );
                r@.map_values(|s: String| s@) == seq![
                    pdir,
                    spec_join_path(pdir, "bin"@),
                    spec_join_path(pdir, "version"@),
                ]
            }),
    {
        let mut r: Vec<String> = Vec::new();
        r.push(self.package_dir(package_name));
        r.push(self.package_bin_dir(package_name));
        r.push(self.package_version_dir(package_name));
        proof {
            let pdir = spec_join_path(
                spec_join_path(self.spec_root(), "formula"@),
                sha256_hex_of(package_name.spec_bytes()),
            );
            assert(r@.map_values(|s: String| s@) =~= seq![
                pdir,
                spec_join_path(pdir, "bin"@),
                spec_join_path(pdir, "version"@),
            ]);
        }
        r
    }

    /// The file a download is kept in: the package's version directory
    /// entry named by the version and the archive extension.
    pub fn download_path(&self, package_name: &str, version: &str, ext: &str) -> (r: String)
        ensures
            r@ == spec_join_path(
                spec_join_path(
                    spec_join_path(
                        spec_join_path(self.spec_root(), "formula"@),
                        sha256_hex_of(package_name.spec_bytes()),
                    ),
                    "version"@,
                ),
                version@ + ext@,
            ),
    {
        let vdir = self.package_version_dir(package_name);
        let file = String::from_str(version).concat(ext);
        join_path(vdir.as_str(), file.as_str())
    }
}

} // verus!

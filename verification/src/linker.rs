//! Exposing an installed executable on the command search path.
//!
//! On POSIX systems the exposure is a symbolic link, which the caller
//! creates; here the link's place is computed.  On Windows two generated
//! shim scripts stand in for the link — a shell-compatible one and a
//! batch one — each carrying the source path and the owning package as
//! provenance comments, forwarding all arguments, and propagating the
//! exit code.

use vstd::map::Map;
use vstd::prelude::*;

verus! {

/// The shell-compatible shim text for a binary at `src_path` owned by
/// `package`.
pub open spec fn spec_shell_shim(src_path: Seq<char>, package: Seq<char>) -> Seq<char> {
    "#!/bin/sh\n# package: "@ + package + "\n# filepath: "@ + src_path + "\nxbin=\""@ + src_path
        + "\"\nexec \"$xbin\" \"$@\"\n"@
}

/// The batch shim text for a binary at `src_path` owned by `package`.
pub open spec fn spec_batch_shim(src_path: Seq<char>, package: Seq<char>) -> Seq<char> {
    "@echo off\n:: package: "@ + package + "\n:: filepath: "@ + src_path + "\n\""@ + src_path
        + "\" %*\n"@
}

/// Writes the shell-compatible shim.
pub fn shell_shim(src_path: &str, package: &str) -> (r: String)
    ensures
        r@ == spec_shell_shim(src_path@, package@),
{
    let r = String::from_str("#!/bin/sh\n# package: ").concat(package).concat(
        "\n# filepath: ",
    ).concat(src_path).concat("\nxbin=\"").concat(src_path).concat(
        "\"\nexec \"$xbin\" \"$@\"\n",
    );
    r
}

/// Writes the batch shim.
pub fn batch_shim(src_path: &str, package: &str) -> (r: String)
    ensures
        r@ == spec_batch_shim(src_path@, package@),
{
    let r = String::from_str("@echo off\n:: package: ").concat(package).concat(
        "\n:: filepath: ",
    ).concat(src_path).concat("\n\"").concat(src_path).concat("\" %*\n");
    r
}

/// The names the exposure claims in the bin directory: the bare name on
/// POSIX systems, the bare name and the batch name on Windows.
pub open spec fn spec_link_names(bin: Seq<char>, windows: bool) -> Seq<Seq<char>> {
    if windows {
        seq![bin, bin + ".bat"@]
    } else {
        seq![bin]
    }
}

/// Computes the names the exposure claims in the bin directory.
pub fn link_names(bin: &str, windows: bool) -> (r: Vec<String>)
    ensures
        r@.map_values(|s: String| s@) == spec_link_names(bin@, windows),
{
    let mut r: Vec<String> = Vec::new();
    r.push(bin.to_owned());
    if windows {
        r.push(String::from_str(bin).concat(".bat"));
    }
    proof {
        assert(r@.map_values(|s: String| s@) =~= spec_link_names(bin@, windows));
    }
    r
}

/// A bin directory modelled as a map from file name to file content.
/// Generating the Windows shims writes the shim pair under the binary's
/// names.
pub open spec fn spec_write_shims(
    dir: Map<Seq<char>, Seq<char>>,
    bin: Seq<char>,
    src_path: Seq<char>,
    package: Seq<char>,
) -> Map<Seq<char>, Seq<char>> {
    dir.insert(bin, spec_shell_shim(src_path, package)).insert(
        bin + ".bat"@,
        spec_batch_shim(src_path, package),
    )
}

/// Generating the shim pair twice for the same package and binary leaves
/// the directory as one generation leaves it: the second run overwrites
/// the pair rather than adding to it.
pub proof fn lemma_shim_write_idempotent(
    dir: Map<Seq<char>, Seq<char>>,
    bin: Seq<char>,
    src_path: Seq<char>,
    package: Seq<char>,
)
    ensures
        spec_write_shims(spec_write_shims(dir, bin, src_path, package), bin, src_path, package)
            == spec_write_shims(dir, bin, src_path, package),
{
    assert(spec_write_shims(spec_write_shims(dir, bin, src_path, package), bin, src_path, package)
        =~= spec_write_shims(dir, bin, src_path, package));
}

} // verus!

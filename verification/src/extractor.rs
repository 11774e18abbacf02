//! Locating one named file inside an archive.
//!
//! Four container formats are read: gzip-compressed tar, bzip2-compressed
//! tar, plain tar, and zip.  The container is picked from the archive's
//! file name.  Each entry's path is normalized — a leading `./` run and
//! leading slashes are stripped, and a numbered sparse-file marker
//! directory is dropped — and compared against the requested path, built
//! by joining the containing folder and the file name and collapsing
//! doubled separators.  The first entry that matches is returned.

use vstd::prelude::*;

use crate::text::{
    ends_with, matches_at, replace_all, spec_is_digit, spec_replace_all, spec_starts_with,
    to_chars,
};

verus! {

/// A failure while locating or unpacking an entry.
#[derive(Debug)]
pub enum ExtractorError {
    CreateFolderFail { folder: String, message: String },
    FindNotFoundInTarball { filename: String, path: String },
    NotSupportExtension { filename: String },
    ExtractFail { filename: String, path: String, message: String },
}

/// A recognized container format, by archive file-name suffix.
#[derive(Clone, Copy, PartialEq, Eq, Structural, Debug)]
pub enum Extension {
    TarGz,
    Tgz,
    TarBiz2,
    Tar,
    Zip,
}

impl Extension {
    /// The file-name suffix of the format.
    pub fn as_str(&self) -> (r: &'static str)
        ensures
            r@ == match *self {
                Extension::TarGz => ".tar.gz"@,
                Extension::Tgz => ".tgz"@,
                Extension::TarBiz2 => ".tar.bz2"@,
                Extension::Tar => ".tar"@,
                Extension::Zip => ".zip"@,
            },
    {
        match self {
            Extension::TarGz => ".tar.gz",
            Extension::Tgz => ".tgz",
            Extension::TarBiz2 => ".tar.bz2",
            Extension::Tar => ".tar",
            Extension::Zip => ".zip",
        }
    }
}

/// The container format an archive file name announces, tried in the
/// order: gzip tar, tgz, bzip2 tar, plain tar, zip.
pub open spec fn spec_detect(name: Seq<char>) -> Option<Extension> {
    if crate::text::spec_ends_with(name, ".tar.gz"@) || crate::text::spec_ends_with(
        name,
        ".tgz"@,
    ) {
        Some(if crate::text::spec_ends_with(name, ".tar.gz"@) {
            Extension::TarGz
        } else {
            Extension::Tgz
        })
    } else if crate::text::spec_ends_with(name, ".tar.bz2"@) {
        Some(Extension::TarBiz2)
    } else if crate::text::spec_ends_with(name, ".tar"@) {
        Some(Extension::Tar)
    } else if crate::text::spec_ends_with(name, ".zip"@) {
        Some(Extension::Zip)
    } else {
        None
    }
}

/// One archive entry, read into memory: its stored path, whether it is a
/// directory, its Unix permission bits and modification time when
/// stored, and its bytes.
#[derive(Debug)]
pub struct ArchiveEntry {
    pub path: String,
    pub is_dir: bool,
    pub mode: Option<u32>,
    pub mtime: Option<u64>,
    pub data: Vec<u8>,
}

/// The model of an archive entry.
pub struct EntryView {
    pub path: Seq<char>,
    pub is_dir: bool,
    pub mode: Option<u32>,
    pub mtime: Option<u64>,
    pub data: Seq<u8>,
}

impl View for ArchiveEntry {
    type V = EntryView;

    open spec fn view(&self) -> EntryView {
        EntryView {
            path: self.path@,
            is_dir: self.is_dir,
            mode: self.mode,
            mtime: self.mtime,
            data: self.data@,
        }
    }
}

/// The models of a run of entries.
pub open spec fn spec_entry_views(es: Seq<ArchiveEntry>) -> Seq<EntryView> {
    es.map_values(|e: ArchiveEntry| e@)
}

/// What gunzipping a byte string yields, or nothing when the bytes are
/// not a gzip stream.
pub uninterp spec fn gunzip_of(b: Seq<u8>) -> Option<Seq<u8>>;

/// What bunzipping a byte string yields, or nothing when the bytes are
/// not a bzip2 stream.
pub uninterp spec fn bunzip_of(b: Seq<u8>) -> Option<Seq<u8>>;

/// The entries a tar byte string holds, in order, or nothing when the
/// bytes cannot be read as a tar archive.
pub uninterp spec fn tar_entries_of(b: Seq<u8>) -> Option<Seq<EntryView>>;

/// The entries a zip byte string holds, in index order, or nothing when
/// the bytes cannot be read as a zip archive.
pub uninterp spec fn zip_entries_of(b: Seq<u8>) -> Option<Seq<EntryView>>;

/// Relies on libflate::gzip::Decoder: the decompressed bytes are a
/// function of the compressed bytes alone.
#[verifier::external_body]
fn gunzip(data: &Vec<u8>) -> (r: Option<Vec<u8>>)
    ensures
        (r is Some) == (gunzip_of(data@) is Some),
        r matches Some(v) ==> Some(v@) == gunzip_of(data@),
{
    let mut dec = match libflate::gzip::Decoder::new(data.as_slice()) {
        Ok(d) => d,
        Err(_) => return None,
    };
    let mut out: Vec<u8> = Vec::new();
    match std::io::Read::read_to_end(&mut dec, &mut out) {
        Ok(_) => Some(out),
        Err(_) => None,
    }
}

/// Relies on bzip2::read::BzDecoder: the decompressed bytes are a
/// function of the compressed bytes alone.
#[verifier::external_body]
fn bunzip(data: &Vec<u8>) -> (r: Option<Vec<u8>>)
    ensures
        (r is Some) == (bunzip_of(data@) is Some),
        r matches Some(v) ==> Some(v@) == bunzip_of(data@),
{
    let mut dec = bzip2::read::BzDecoder::new(data.as_slice());
    let mut out: Vec<u8> = Vec::new();
    match std::io::Read::read_to_end(&mut dec, &mut out) {
        Ok(_) => Some(out),
        Err(_) => None,
    }
}

/// Relies on tar::Archive::entries and tar::Entry: each entry's path,
/// kind, permission bits, modification time and bytes are a function of
/// the archive bytes alone — within one build of this crate: a build
/// whose platform reads entry paths strictly fails the whole read on a
/// path that is not well-formed text, where other builds read it
/// lossily.
#[verifier::external_body]
fn tar_list(data: &Vec<u8>) -> (r: Option<Vec<ArchiveEntry>>)
    ensures
        (r is Some) == (tar_entries_of(data@) is Some),
        r matches Some(v) ==> Some(spec_entry_views(v@)) == tar_entries_of(data@),
{
    let mut archive = tar::Archive::new(data.as_slice());
    let mut out: Vec<ArchiveEntry> = Vec::new();
    for ent in archive.entries().ok()? {
        let mut e = ent.ok()?;
        let path = e.path().ok()?.to_string_lossy().into_owned();
        let is_dir = e.header().entry_type().is_dir();
        let mode = e.header().mode().ok();
        let mtime = e.header().mtime().ok();
        let mut bytes: Vec<u8> = Vec::new();
        std::io::Read::read_to_end(&mut e, &mut bytes).ok()?;
        out.push(ArchiveEntry { path, is_dir, mode, mtime, data: bytes });
    }
    Some(out)
}

/// Relies on zip::ZipArchive: each entry's stored name, kind, Unix mode
/// and bytes are a function of the archive bytes alone.
#[verifier::external_body]
fn zip_list(data: &Vec<u8>) -> (r: Option<Vec<ArchiveEntry>>)
    ensures
        (r is Some) == (zip_entries_of(data@) is Some),
        r matches Some(v) ==> Some(spec_entry_views(v@)) == zip_entries_of(data@),
{
    let mut archive = zip::ZipArchive::new(std::io::Cursor::new(data.as_slice())).ok()?;
    let mut out: Vec<ArchiveEntry> = Vec::new();
    for i in 0..archive.len() {
        let mut f = archive.by_index(i).ok()?;
        let path = f.name().to_string();
        let is_dir = f.is_dir();
        let mode = f.unix_mode();
        let mut bytes: Vec<u8> = Vec::new();
        std::io::Read::read_to_end(&mut f, &mut bytes).ok()?;
        out.push(ArchiveEntry { path, is_dir, mode, mtime: None, data: bytes });
    }
    Some(out)
}

/// The requested in-archive path: folder and file name joined by a
/// separator, with doubled separators collapsed.
pub open spec fn spec_requested_path(folder: Seq<char>, filename: Seq<char>) -> Seq<char> {
    spec_replace_all(folder + seq!['/'] + filename, seq!['/', '/'], seq!['/'])
}

/// The path with its leading `./` run removed.
pub open spec fn spec_strip_dot_slash(s: Seq<char>) -> Seq<char>
    decreases s.len(),
{
    if spec_starts_with(s, seq!['.', '/']) {
        spec_strip_dot_slash(s.skip(2))
    } else {
        s
    }
}

/// The path with its leading slashes removed.
pub open spec fn spec_strip_slashes(s: Seq<char>) -> Seq<char>
    decreases s.len(),
{
    if s.len() > 0 && s[0] == '/' {
        spec_strip_slashes(s.skip(1))
    } else {
        s
    }
}

/// The sparse-file marker directory some producers prepend.
pub open spec fn spec_sparse_marker() -> Seq<char> {
    seq!['G', 'N', 'U', 'S', 'p', 'a', 'r', 's', 'e', 'F', 'i', 'l', 'e', '.']
}

/// The end of the digit run starting at `i`.
pub open spec fn spec_digit_run_end(s: Seq<char>, i: int) -> int
    decreases s.len() - i when 0 <= i <= s.len()
{
    if i < s.len() && spec_is_digit(s[i]) {
        spec_digit_run_end(s, i + 1)
    } else {
        i
    }
}

/// The path with one numbered sparse-file marker directory removed from
/// its front, when one is there: the marker name, a digit run, and a
/// separator.
pub open spec fn spec_strip_sparse(s: Seq<char>) -> Seq<char> {
    if spec_starts_with(s, spec_sparse_marker()) {
        let e = spec_digit_run_end(s, 14);
        if e > 14 && e < s.len() && s[e] == '/' {
            s.skip(e + 1)
        } else {
            s
        }
    } else {
        s
    }
}

/// An entry path normalized for comparison: the `./` run, leading
/// slashes and a sparse marker stripped, then one leading separator put
/// back.
pub open spec fn spec_normalize_entry(p: Seq<char>) -> Seq<char> {
    seq!['/'] + spec_strip_sparse(spec_strip_slashes(spec_strip_dot_slash(p)))
}

/// Whether two character vectors hold the same characters.
fn chars_eq(a: &Vec<char>, b: &Vec<char>) -> (r: bool)
    ensures
        r == (a@ == b@),
{
    if a.len() != b.len() {
        proof {
            assert(a@ != b@);
        }
        return false;
    }
    let mut i: usize = 0;
    while i < a.len()
        invariant
            a@.len() == b@.len(),
            i <= a@.len(),
            forall|k: int| 0 <= k < i ==> a@[k] == b@[k],
        decreases a@.len() - i,
    {
        if a[i] != b[i] {
            return false;
        }
        i = i + 1;
    }
    proof {
        assert(a@ =~= b@);
    }
    true
}

/// Normalizes an entry path, as `spec_normalize_entry` describes it.
fn normalize_entry(p: &str) -> (r: Vec<char>)
    ensures
        r@ == spec_normalize_entry(p@),
{
    let chars = to_chars(p);
    let n = chars.len();
    let dot_slash: Vec<char> = to_chars("./");
    proof {
        reveal_strlit("./");
        assert(dot_slash@ =~= seq!['.', '/']);
        assert(chars@.skip(0) =~= chars@);
    }
    let mut i: usize = 0;
    while matches_at(&chars, i, &dot_slash)
        invariant
            n == chars@.len(),
            chars@ == p@,
            dot_slash@ == seq!['.', '/'],
            i <= n,
            spec_strip_dot_slash(p@) == spec_strip_dot_slash(chars@.skip(i as int)),
        decreases n - i,
    {
        proof {
            assert(chars@.skip(i as int).subrange(0, 2) =~= chars@.subrange(i as int, i + 2));
            assert(spec_starts_with(chars@.skip(i as int), seq!['.', '/']));
            assert(chars@.skip(i as int).skip(2) =~= chars@.skip(i + 2));
        }
        i = i + 2;
    }
    proof {
        if chars@.skip(i as int).len() >= 2 {
            assert(chars@.skip(i as int).subrange(0, 2) =~= chars@.subrange(i as int, i + 2));
        }
        assert(!spec_starts_with(chars@.skip(i as int), seq!['.', '/']));
        assert(spec_strip_dot_slash(p@) == chars@.skip(i as int));
    }
    let ghost after_dot = chars@.skip(i as int);
    while i < n && chars[i] == '/'
        invariant
            n == chars@.len(),
            chars@ == p@,
            i <= n,
            spec_strip_slashes(after_dot) == spec_strip_slashes(chars@.skip(i as int)),
        decreases n - i,
    {
        proof {
            assert(chars@.skip(i as int)[0] == chars@[i as int]);
            assert(chars@.skip(i as int).skip(1) =~= chars@.skip(i + 1));
        }
        i = i + 1;
    }
    proof {
        if i < n {
            assert(chars@.skip(i as int)[0] == chars@[i as int]);
        }
        assert(spec_strip_slashes(after_dot) == chars@.skip(i as int));
    }
    let ghost after_slash = chars@.skip(i as int);
    let marker: Vec<char> = to_chars("GNUSparseFile.");
    proof {
        reveal_strlit("GNUSparseFile.");
        assert(marker@ =~= spec_sparse_marker());
    }
    let mut start: usize = i;
    if matches_at(&chars, i, &marker) {
        proof {
            assert(chars@.skip(i as int).subrange(0, 14) =~= chars@.subrange(i as int, i + 14));
            assert(spec_starts_with(after_slash, spec_sparse_marker()));
        }
        let mut j: usize = i + 14;
        proof {
            assert(spec_digit_run_end(after_slash, 14) == spec_digit_run_end(
                after_slash,
                j - i,
            ));
        }
        while j < n && '0' <= chars[j] && chars[j] <= '9'
            invariant
                n == chars@.len(),
                chars@ == p@,
                after_slash == chars@.skip(i as int),
                i + 14 <= j <= n,
                spec_digit_run_end(after_slash, 14) == spec_digit_run_end(after_slash, j - i),
            decreases n - j,
        {
            proof {
                assert(after_slash[j - i] == chars@[j as int]);
            }
            j = j + 1;
        }
        proof {
            if j < n {
                assert(after_slash[j - i] == chars@[j as int]);
            }
            assert(spec_digit_run_end(after_slash, 14) == j - i);
        }
        if j > i + 14 && j < n && chars[j] == '/' {
            proof {
                assert(after_slash[j - i] == chars@[j as int]);
                assert(after_slash.skip(j - i + 1) =~= chars@.skip(j + 1));
            }
            start = j + 1;
        } else {
            proof {
                if j < n {
                    assert(after_slash[j - i] == chars@[j as int]);
                }
                assert(spec_strip_sparse(after_slash) == after_slash);
            }
        }
    } else {
        proof {
            if chars@.skip(i as int).len() >= 14 {
                assert(chars@.skip(i as int).subrange(0, 14) =~= chars@.subrange(
                    i as int,
                    i + 14,
                ));
            }
            assert(!spec_starts_with(after_slash, spec_sparse_marker()));
            assert(spec_strip_sparse(after_slash) == after_slash);
        }
    }
    proof {
        assert(spec_strip_sparse(after_slash) =~= chars@.skip(start as int));
    }
    let mut out: Vec<char> = Vec::new();
    out.push('/');
    let mut k: usize = start;
    while k < n
        invariant
            n == chars@.len(),
            chars@ == p@,
            start <= k <= n,
            out@ == seq!['/'] + chars@.subrange(start as int, k as int),
        decreases n - k,
    {
        out.push(chars[k]);
        k = k + 1;
        proof {
            assert(out@ =~= seq!['/'] + chars@.subrange(start as int, k as int));
        }
    }
    proof {
        assert(chars@.subrange(start as int, n as int) =~= chars@.skip(start as int));
        assert(out@ =~= spec_normalize_entry(p@));
    }
    out
}

/// The first index at which `p` holds of an entry.
pub open spec fn spec_first_idx(es: Seq<EntryView>, p: spec_fn(EntryView) -> bool) -> Option<int>
    decreases es.len(),
{
    if es.len() == 0 {
        None
    } else if p(es[0]) {
        Some(0)
    } else {
        match spec_first_idx(es.skip(1), p) {
            Some(i) => Some(i + 1),
            None => None,
        }
    }
}

/// A scan that found a first hit names the first index.
proof fn lemma_first_idx_found(es: Seq<EntryView>, p: spec_fn(EntryView) -> bool, i: int)
    requires
        0 <= i < es.len(),
        p(es[i]),
        forall|j: int| 0 <= j < i ==> !p(#[trigger] es[j]),
    ensures
        spec_first_idx(es, p) == Some(i),
    decreases i,
{
    if i == 0 {
    } else {
        assert(!p(es[0]));
        assert(es.skip(1)[i - 1] == es[i]);
        assert(forall|j: int| 0 <= j < i - 1 ==> (#[trigger] es.skip(1)[j]) == es[j + 1]);
        lemma_first_idx_found(es.skip(1), p, i - 1);
    }
}

/// A scan that found no hit names no index.
proof fn lemma_first_idx_none(es: Seq<EntryView>, p: spec_fn(EntryView) -> bool)
    requires
        forall|j: int| 0 <= j < es.len() ==> !p(#[trigger] es[j]),
    ensures
        spec_first_idx(es, p) is None,
    decreases es.len(),
{
    if es.len() > 0 {
        assert(forall|j: int| 0 <= j < es.len() - 1 ==> (#[trigger] es.skip(1)[j]) == es[j + 1]);
        lemma_first_idx_none(es.skip(1), p);
    }
}

/// Whether a tar entry answers the requested path.
pub open spec fn spec_tar_hit(req: Seq<char>) -> spec_fn(EntryView) -> bool {
    |e: EntryView| spec_normalize_entry(e.path) == req
}

/// Whether a zip entry answers the requested path: directories are
/// passed over, and the stored name is compared with one leading
/// separator put in front.
pub open spec fn spec_zip_hit(req: Seq<char>) -> spec_fn(EntryView) -> bool {
    |e: EntryView| !e.is_dir && seq!['/'] + e.path == req
}

/// What the named container holds, once decoded: the tar entries of the
/// decompressed bytes, or the zip entries of the bytes themselves.
pub open spec fn spec_archive_entries(ext: Extension, b: Seq<u8>) -> Option<Seq<EntryView>> {
    match ext {
        Extension::TarGz => match gunzip_of(b) {
            Some(d) => tar_entries_of(d),
            None => None,
        },
        Extension::Tgz => match gunzip_of(b) {
            Some(d) => tar_entries_of(d),
            None => None,
        },
        Extension::TarBiz2 => match bunzip_of(b) {
            Some(d) => tar_entries_of(d),
            None => None,
        },
        Extension::Tar => tar_entries_of(b),
        Extension::Zip => zip_entries_of(b),
    }
}

/// The entry the request picks from the archive: the first whose
/// normalized path (tar family) or slash-prefixed stored name (zip,
/// directories passed over) equals the requested path.
pub open spec fn spec_picked(ext: Extension, b: Seq<u8>, folder: Seq<char>, filename: Seq<char>)
    -> Option<int> {
    let req = spec_requested_path(folder, filename);
    match spec_archive_entries(ext, b) {
        Some(es) => if ext is Zip {
            spec_first_idx(es, spec_zip_hit(req))
        } else {
            spec_first_idx(es, spec_tar_hit(req))
        },
        None => None,
    }
}

/// One file taken out of an archive: its bytes and, when the container
/// stored them, its Unix permission bits and modification time.
pub struct ExtractedFile {
    pub data: Vec<u8>,
    pub mode: Option<u32>,
    pub mtime: Option<u64>,
}

/// The bytes of `v`, copied.
fn copy_bytes(v: &Vec<u8>) -> (r: Vec<u8>)
    ensures
        r@ == v@,
{
    let mut r: Vec<u8> = Vec::new();
    let mut i: usize = 0;
    while i < v.len()
        invariant
            i <= v@.len(),
            r@ == v@.subrange(0, i as int),
        decreases v@.len() - i,
    {
        r.push(v[i]);
        i = i + 1;
        proof {
            assert(r@ =~= v@.subrange(0, i as int));
        }
    }
    proof {
        assert(r@ =~= v@);
    }
    r
}

/// Finds the first tar entry whose normalized path equals the requested
/// path.
fn find_tar_entry(entries: &Vec<ArchiveEntry>, req: &Vec<char>) -> (r: Option<ExtractedFile>)
    ensures
        ({
            let idx = spec_first_idx(spec_entry_views(entries@), spec_tar_hit(req@));
            match r {
                Some(f) => idx matches Some(i) && f.data@ == spec_entry_views(entries@)[i].data
                    && f.mode == spec_entry_views(entries@)[i].mode && f.mtime
                    == spec_entry_views(entries@)[i].mtime,
                None => idx is None,
            }
        }),
{
    let ghost es = spec_entry_views(entries@);
    let mut i: usize = 0;
    while i < entries.len()
        invariant
            es == spec_entry_views(entries@),
            i <= entries@.len(),
            forall|j: int| 0 <= j < i ==> !spec_tar_hit(req@)(#[trigger] es[j]),
        decreases entries@.len() - i,
    {
        let norm = normalize_entry(entries[i].path.as_str());
        proof {
            assert(es[i as int] == entries@[i as int]@);
        }
        if chars_eq(&norm, req) {
            proof {
                assert(spec_tar_hit(req@)(es[i as int]));
                lemma_first_idx_found(es, spec_tar_hit(req@), i as int);
            }
            let data = copy_bytes(&entries[i].data);
            return Some(ExtractedFile { data, mode: entries[i].mode, mtime: entries[i].mtime });
        }
        proof {
            assert(!spec_tar_hit(req@)(es[i as int]));
        }
        i = i + 1;
    }
    proof {
        lemma_first_idx_none(es, spec_tar_hit(req@));
    }
    None
}

/// Finds the first zip entry that is not a directory and whose stored
/// name, with a separator in front, equals the requested path.
fn find_zip_entry(entries: &Vec<ArchiveEntry>, req: &Vec<char>) -> (r: Option<ExtractedFile>)
    ensures
        ({
            let idx = spec_first_idx(spec_entry_views(entries@), spec_zip_hit(req@));
            match r {
                Some(f) => idx matches Some(i) && f.data@ == spec_entry_views(entries@)[i].data
                    && f.mode == spec_entry_views(entries@)[i].mode && f.mtime
                    == spec_entry_views(entries@)[i].mtime,
                None => idx is None,
            }
        }),
{
    let ghost es = spec_entry_views(entries@);
    let mut i: usize = 0;
    while i < entries.len()
        invariant
            es == spec_entry_views(entries@),
            i <= entries@.len(),
            forall|j: int| 0 <= j < i ==> !spec_zip_hit(req@)(#[trigger] es[j]),
        decreases entries@.len() - i,
    {
        proof {
            assert(es[i as int] == entries@[i as int]@);
        }
        if !entries[i].is_dir {
            let mut name = to_chars(entries[i].path.as_str());
            let mut abs: Vec<char> = Vec::new();
            abs.push('/');
            abs.append(&mut name);
            proof {
                assert(abs@ =~= seq!['/'] + entries@[i as int].path@);
            }
            if chars_eq(&abs, req) {
                proof {
                    assert(spec_zip_hit(req@)(es[i as int]));
                    lemma_first_idx_found(es, spec_zip_hit(req@), i as int);
                }
                let data = copy_bytes(&entries[i].data);
                return Some(
                    ExtractedFile { data, mode: entries[i].mode, mtime: entries[i].mtime },
                );
            }
        }
        proof {
            assert(!spec_zip_hit(req@)(es[i as int]));
        }
        i = i + 1;
    }
    proof {
        lemma_first_idx_none(es, spec_zip_hit(req@));
    }
    None
}

/// Takes one named file out of an archive held in memory.
///
/// The container format comes from the archive's file name; an
/// unrecognized suffix is refused.  The requested path is the containing
/// folder and the file name joined by a separator, with doubled
/// separators collapsed.  The first entry whose normalized path equals
/// the requested path is returned with its bytes and stored permission
/// bits; when no entry matches, the file is reported missing.
pub fn extract(archive_name: &str, data: &Vec<u8>, filename: &str, folder: &str) -> (r: Result<
    ExtractedFile,
    ExtractorError,
>)
    ensures
        spec_detect(archive_name@) is None ==> (r matches Err(
            ExtractorError::NotSupportExtension { filename: f },
        ) && f@ == archive_name@),
        spec_detect(archive_name@) matches Some(ext) ==> {
            &&& spec_archive_entries(ext, data@) is None ==> (r matches Err(
                ExtractorError::ExtractFail { filename: f, path: p, .. },
            ) && f@ == filename@ && p@ == folder@)
            &&& spec_archive_entries(ext, data@) is Some ==> match spec_picked(
                ext,
                data@,
                folder@,
                filename@,
            ) {
                Some(i) => r matches Ok(out) && out.data@ == spec_archive_entries(
                    ext,
                    data@,
                )->Some_0[i].data && out.mode == spec_archive_entries(ext, data@)->Some_0[i].mode
                    && out.mtime == spec_archive_entries(ext, data@)->Some_0[i].mtime,
                None => r matches Err(ExtractorError::FindNotFoundInTarball {
                    filename: f,
                    path: p,
                }) && f@ == filename@ && p@ == folder@,
            }
        },
{
    let ext = if ends_with(archive_name, ".tar.gz") {
        Extension::TarGz
    } else if ends_with(archive_name, ".tgz") {
        Extension::Tgz
    } else if ends_with(archive_name, ".tar.bz2") {
        Extension::TarBiz2
    } else if ends_with(archive_name, ".tar") {
        Extension::Tar
    } else if ends_with(archive_name, ".zip") {
        Extension::Zip
    } else {
        return Err(ExtractorError::NotSupportExtension { filename: archive_name.to_owned() });
    };
    let mut req: Vec<char> = to_chars(folder);
    req.push('/');
    let mut fname = to_chars(filename);
    req.append(&mut fname);
    proof {
        assert(req@ =~= folder@ + seq!['/'] + filename@);
    }
    let mut sep2: Vec<char> = Vec::new();
    sep2.push('/');
    sep2.push('/');
    let mut sep1: Vec<char> = Vec::new();
    sep1.push('/');
    proof {
        assert(sep2@ =~= seq!['/', '/']);
        assert(sep1@ =~= seq!['/']);
    }
    let req = replace_all(&req, &sep2, &sep1);
    proof {
        assert(req@ == spec_requested_path(folder@, filename@));
    }
    let entries = match ext {
        Extension::Zip => zip_list(data),
        Extension::Tar => tar_list(data),
        Extension::TarGz | Extension::Tgz => match gunzip(data) {
            Some(d) => tar_list(&d),
            None => None,
        },
        Extension::TarBiz2 => match bunzip(data) {
            Some(d) => tar_list(&d),
            None => None,
        },
    };
    let entries = match entries {
        Some(es) => es,
        None => {
            return Err(
                ExtractorError::ExtractFail {
                    filename: filename.to_owned(),
                    path: folder.to_owned(),
                    message: String::from_str("can not read the archive"),
                },
            );
        },
    };
    let found = match ext {
        Extension::Zip => find_zip_entry(&entries, &req),
        _ => find_tar_entry(&entries, &req),
    };
    match found {
        Some(f) => Ok(f),
        None => Err(
            ExtractorError::FindNotFoundInTarball {
                filename: filename.to_owned(),
                path: folder.to_owned(),
            },
        ),
    }
}

} // verus!

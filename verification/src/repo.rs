//! The repository client's data: addresses, clone options, tags, and the
//! reading of what the version-control tool prints.
//!
//! Running the tool is the caller's work; everything here that decides or
//! computes — address validation, command arguments, exit-code meaning,
//! tag-listing parsing — is verified.

use vstd::prelude::*;

use crate::text::{
    from_chars, matches_at, push_char, spec_dec, spec_fields, spec_lines, spec_starts_with,
    spec_strip_cr, split_chars, subvec, to_chars, u64_string,
};
use crate::text::{fields_chars, lemma_split_len};

verus! {

/// A failure of the repository client.
#[derive(Debug)]
pub enum GitError {
    IO { message: String },
    GitUrlInvalid { url: String },
    RepositoryExist { path: String },
    CommandError { message: String },
    CommandExitError { code: i32 },
    RemoteRepositoryNotExists { url: String },
    ParseTagError { row: String },
}

/// One remote tag: the commit reference and the tag name.
#[derive(Debug)]
pub struct GitTag {
    pub hash: String,
    pub tag: String,
}

impl PartialEq for GitTag {
    fn eq(&self, other: &Self) -> (r: bool) {
        if !self.hash.eq(&other.hash) {
            return false;
        }
        if !self.tag.eq(&other.tag) {
            return false;
        }
        true
    }
}

impl vstd::std_specs::cmp::PartialEqSpecImpl for GitTag {
    open spec fn obeys_eq_spec() -> bool {
        true
    }

    open spec fn eq_spec(&self, other: &GitTag) -> bool {
        self.hash@ == other.hash@ && self.tag@ == other.tag@
    }
}

/// How a repository is cloned: shallow depth, quietness, a single branch,
/// dissociation from any reference repository, and an object filter.
pub struct CloneOption {
    pub depth: Option<i32>,
    pub quiet: Option<bool>,
    pub single_branch: Option<bool>,
    pub dissociate: Option<bool>,
    pub filter: Option<String>,
}

/// A remote repository, held by its address.
pub struct Repository {
    remote: String,
}

/// A web address: it begins with the scheme of one of the two web
/// protocols.
pub open spec fn spec_is_web_address(s: Seq<char>) -> bool {
    spec_starts_with(s, "http://"@) || spec_starts_with(s, "https://"@)
}

/// Whether git_url_parse::GitUrl::parse accepts the text as a repository
/// address.
pub uninterp spec fn is_git_url(s: Seq<char>) -> bool;

/// Relies on git_url_parse::GitUrl::parse: whether the text is a
/// repository address is a function of the text alone.  The parser is
/// consulted only for web addresses: on those it always returns, since
/// the scheme it reads is the run before the separator — never one of
/// the ssh forms, whose path handling can slice an empty string — and
/// every validation exit hands back a value.
#[verifier::external_body]
fn git_url_ok(url: &str) -> (r: bool)
    requires
        spec_is_web_address(url@),
    ensures
        r == is_git_url(url@),
{
    git_url_parse::GitUrl::parse(url).is_ok()
}

impl Repository {
    /// The address the repository was made from.
    pub closed spec fn spec_remote(&self) -> Seq<char> {
        self.remote@
    }

    pub fn remote(&self) -> (r: &str)
        ensures
            r@ == self.spec_remote(),
    {
        self.remote.as_str()
    }
}

/// Accepts a repository address after validation: the address must name
/// one of the web protocols and the parser must accept it.  Any other
/// form — a bare word, which the parser would read as a relative file
/// path, or an ssh-style address — is refused; the formula fetch paths
/// only ever build web addresses.
pub fn new(url: &str) -> (r: Result<Repository, GitError>)
    ensures
        match r {
            Ok(rep) => spec_is_web_address(url@) && is_git_url(url@) && rep.spec_remote()
                == url@,
            Err(e) => (!spec_is_web_address(url@) || !is_git_url(url@)) && (e matches
                GitError::GitUrlInvalid { url: u } && u@ == url@),
        },
{
    let web = crate::text::starts_with(url, "http://") || crate::text::starts_with(
        url,
        "https://",
    );
    if web && git_url_ok(url) {
        Ok(Repository { remote: url.to_owned() })
    } else {
        Err(GitError::GitUrlInvalid { url: url.to_owned() })
    }
}

/// The decimal writing of a possibly negative number.
pub open spec fn spec_i32_dec(n: int) -> Seq<char> {
    if n < 0 {
        seq!['-'] + spec_dec(-n)
    } else {
        spec_dec(n)
    }
}

/// Writes `n` in decimal with its sign.
pub fn i32_string(n: i32) -> (r: String)
    ensures
        r@ == spec_i32_dec(n as int),
{
    if n < 0 {
        let mut s = String::new();
        push_char(&mut s, '-');
        let m: u64 = (-(n as i64)) as u64;
        let t = u64_string(m);
        let r = s.concat(t.as_str());
        proof {
            assert(r@ =~= spec_i32_dec(n as int));
        }
        r
    } else {
        u64_string(n as u64)
    }
}

/// The flags that the clone options ask of the version-control tool, in
/// the order they are passed: depth, quietness, dissociation, single
/// branch, object filter.
pub open spec fn spec_clone_args(
    depth: Option<i32>,
    quiet: Option<bool>,
    single_branch: Option<bool>,
    dissociate: Option<bool>,
    filter: Option<Seq<char>>,
) -> Seq<Seq<char>> {
    let a1: Seq<Seq<char>> = match depth {
        Some(d) => seq!["--depth="@ + spec_i32_dec(d as int)],
        None => seq![],
    };
    let a2: Seq<Seq<char>> = if quiet == Some(true) {
        seq!["--quiet"@]
    } else {
        seq![]
    };
    let a3: Seq<Seq<char>> = if dissociate == Some(true) {
        seq!["--dissociate"@]
    } else {
        seq![]
    };
    let a4: Seq<Seq<char>> = if single_branch == Some(true) {
        seq!["--single-branch"@]
    } else {
        seq![]
    };
    let a5: Seq<Seq<char>> = match filter {
        Some(f) => seq!["--filter="@ + f],
        None => seq![],
    };
    a1 + a2 + a3 + a4 + a5
}

/// Builds the command-line flags the clone options call for.
pub fn clone_args(options: &CloneOption) -> (r: Vec<String>)
    ensures
        r@.map_values(|s: String| s@) == spec_clone_args(
            options.depth,
            options.quiet,
            options.single_branch,
            options.dissociate,
            match options.filter {
                Some(ref f) => Some(f@),
                None => None,
            },
        ),
{
    let ghost gfilter: Option<Seq<char>> = match options.filter {
        Some(ref f) => Some(f@),
        None => None,
    };
    let ghost expect = spec_clone_args(
        options.depth,
        options.quiet,
        options.single_branch,
        options.dissociate,
        gfilter,
    );
    let mut r: Vec<String> = Vec::new();
    match options.depth {
        Some(d) => {
            let arg = String::from_str("--depth=").concat(i32_string(d).as_str());
            r.push(arg);
        },
        None => {},
    }
    if options.quiet == Some(true) {
        r.push(String::from_str("--quiet"));
    }
    if options.dissociate == Some(true) {
        r.push(String::from_str("--dissociate"));
    }
    if options.single_branch == Some(true) {
        r.push(String::from_str("--single-branch"));
    }
    match options.filter {
        Some(ref f) => {
            let arg = String::from_str("--filter=").concat(f.as_str());
            r.push(arg);
        },
        None => {},
    }
    proof {
        assert(r@.map_values(|s: String| s@) =~~= expect);
    }
    r
}

/// The meaning of the probe command's exit: success means the repository
/// exists, the not-found code means it does not, and anything else is a
/// command failure.
pub fn interpret_probe_exit(code: i32) -> (r: Result<bool, GitError>)
    ensures
        code == 0 ==> r == Ok::<bool, GitError>(true),
        code == 128 ==> r == Ok::<bool, GitError>(false),
        code != 0 && code != 128 ==> (r matches Err(GitError::CommandExitError { code: c }) && c
            == code),
{
    if code == 0 {
        Ok(true)
    } else if code == 128 {
        Ok(false)
    } else {
        Err(GitError::CommandExitError { code })
    }
}

/// The meaning of the clone command's exit: success, a missing remote
/// repository, or a command failure.
pub fn interpret_clone_exit(url: &str, code: i32) -> (r: Result<(), GitError>)
    ensures
        code == 0 ==> r is Ok,
        code == 128 ==> (r matches Err(GitError::RemoteRepositoryNotExists { url: u }) && u@
            == url@),
        code != 0 && code != 128 ==> (r matches Err(GitError::CommandExitError { code: c }) && c
            == code),
{
    if code == 0 {
        Ok(())
    } else if code == 128 {
        Err(GitError::RemoteRepositoryNotExists { url: url.to_owned() })
    } else {
        Err(GitError::CommandExitError { code })
    }
}

/// The tag-reference prefix in the listing's second field.
pub open spec fn spec_ref_tags_prefix() -> Seq<char> {
    seq!['r', 'e', 'f', 's', '/', 't', 'a', 'g', 's', '/']
}

/// The field with every leading `refs/tags/` removed.
pub open spec fn spec_strip_ref_tags(s: Seq<char>) -> Seq<char>
    decreases s.len(),
{
    if spec_starts_with(s, spec_ref_tags_prefix()) {
        spec_strip_ref_tags(s.skip(10))
    } else {
        s
    }
}

/// A line of the tag listing is well formed when it has at least the two
/// fields: commit reference and tag reference.
pub open spec fn spec_tag_line_ok(line: Seq<char>) -> bool {
    spec_fields(line).len() >= 2
}

/// Reads the tag listing the version-control tool prints: each line holds
/// a commit reference and a tag reference separated by blanks; the tag
/// name is the reference without its `refs/tags/` prefix.  A line without
/// both fields is a parse failure naming that line.
pub fn parse_tag_listing(stdout: &str) -> (r: Result<Vec<GitTag>, GitError>)
    ensures
        match r {
            Ok(v) => {
                let lines = spec_lines(stdout@);
                &&& v@.len() == lines.len()
                &&& forall|i: int| 0 <= i < lines.len() ==> spec_tag_line_ok(#[trigger] lines[i])
                &&& forall|i: int|
                    0 <= i < lines.len() ==> (#[trigger] v@[i]).hash@ == spec_fields(lines[i])[0]
                        && v@[i].tag@ == spec_strip_ref_tags(spec_fields(lines[i])[1])
            },
            Err(e) => {
                let lines = spec_lines(stdout@);
                &&& e matches GitError::ParseTagError { row }
                &&& exists|i: int|
                    {
                        &&& 0 <= i < lines.len()
                        &&& !spec_tag_line_ok(#[trigger] lines[i])
                        &&& row@ == lines[i]
                        &&& forall|j: int| 0 <= j < i ==> spec_tag_line_ok(#[trigger] lines[j])
                    }
            },
        },
{
    let chars = to_chars(stdout);
    let pieces = split_chars(&chars, '\n');
    let ghost all_pieces = pieces@.map_values(|p: Vec<char>| p@);
    proof {
        lemma_split_len(chars@, '\n');
    }
    let count = if pieces[pieces.len() - 1].len() == 0 {
        pieces.len() - 1
    } else {
        pieces.len()
    };
    proof {
        assert(all_pieces.len() > 0);
        assert(all_pieces[all_pieces.len() - 1] == pieces@[pieces@.len() - 1]@);
        if pieces@[pieces@.len() - 1]@.len() == 0 {
            assert(spec_lines(stdout@) =~= all_pieces.drop_last().map_values(
                |p: Seq<char>| spec_strip_cr(p),
            ));
        } else {
            assert(spec_lines(stdout@) =~= all_pieces.map_values(|p: Seq<char>| spec_strip_cr(p)));
        }
        assert(spec_lines(stdout@).len() == count);
    }
    let ghost lines = spec_lines(stdout@);
    let mut pat: Vec<char> = to_chars("refs/tags/");
    proof {
        reveal_strlit("refs/tags/");
        assert(pat@ =~= spec_ref_tags_prefix());
    }
    let mut tags: Vec<GitTag> = Vec::new();
    let mut li: usize = 0;
    while li < count
        invariant
            count <= pieces@.len(),
            lines == spec_lines(stdout@),
            lines.len() == count,
            forall|i: int|
                0 <= i < count ==> lines[i] == spec_strip_cr(
                    (#[trigger] pieces@[i])@,
                ),
            pat@ == spec_ref_tags_prefix(),
            li <= count,
            tags@.len() == li,
            forall|i: int| 0 <= i < li ==> spec_tag_line_ok(#[trigger] lines[i]),
            forall|i: int|
                0 <= i < li ==> (#[trigger] tags@[i]).hash@ == spec_fields(lines[i])[0]
                    && tags@[i].tag@ == spec_strip_ref_tags(spec_fields(lines[i])[1]),
        decreases count - li,
    {
        let piece = &pieces[li];
        let plen = piece.len();
        let line = if plen > 0 && piece[plen - 1] == '\r' {
            subvec(piece, 0, plen - 1)
        } else {
            subvec(piece, 0, plen)
        };
        proof {
            assert(piece@.subrange(0, piece@.len() as int) =~= piece@);
            if piece@.len() > 0 && piece@.last() == '\r' {
                assert(piece@.subrange(0, piece@.len() - 1) =~= piece@.drop_last());
            }
            assert(line@ == lines[li as int]);
        }
        let fields = fields_chars(&line);
        if fields.len() < 2 {
            proof {
                assert(fields@.map_values(|p: Vec<char>| p@).len() == spec_fields(line@).len());
                assert(!spec_tag_line_ok(lines[li as int]));
            }
            return Err(GitError::ParseTagError { row: from_chars(&line) });
        }
        proof {
            assert(fields@.map_values(|p: Vec<char>| p@)[0] == fields@[0]@);
            assert(fields@.map_values(|p: Vec<char>| p@)[1] == fields@[1]@);
        }
        let hash = from_chars(&fields[0]);
        let refs = &fields[1];
        let rlen = refs.len();
        let mut off: usize = 0;
        proof {
            assert(refs@.skip(0) =~= refs@);
        }
        while matches_at(refs, off, &pat)
            invariant
                pat@ == spec_ref_tags_prefix(),
                rlen == refs@.len(),
                off <= refs@.len(),
                spec_strip_ref_tags(refs@) == spec_strip_ref_tags(refs@.skip(off as int)),
            decreases refs@.len() - off,
        {
            proof {
                assert(refs@.skip(off as int).subrange(0, 10) =~= refs@.subrange(
                    off as int,
                    off + 10,
                ));
                assert(spec_starts_with(refs@.skip(off as int), spec_ref_tags_prefix()));
                assert(refs@.skip(off as int).skip(10) =~= refs@.skip(off + 10));
            }
            off = off + 10;
        }
        proof {
            if refs@.skip(off as int).len() >= 10 {
                assert(refs@.skip(off as int).subrange(0, 10) =~= refs@.subrange(
                    off as int,
                    off + 10,
                ));
            }
            assert(!spec_starts_with(refs@.skip(off as int), spec_ref_tags_prefix()));
            assert(spec_strip_ref_tags(refs@.skip(off as int)) == refs@.skip(off as int));
        }
        let tag_chars = subvec(refs, off, refs.len());
        proof {
            assert(tag_chars@ =~= refs@.skip(off as int));
        }
        let tag = from_chars(&tag_chars);
        tags.push(GitTag { hash, tag });
        li = li + 1;
    }
    Ok(tags)
}

} // verus!

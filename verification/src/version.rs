//! Release-version discovery and matching.
//!
//! Repository tags become semantic versions: a leading non-numeric prefix
//! is stripped, the remainder is parsed, tags that do not parse or that
//! carry a pre-release component are discarded, and the survivors are
//! returned newest first.  A version constraint picks the newest listed
//! version that satisfies it.

use vstd::multiset::Multiset;
use vstd::prelude::*;

use crate::repo::GitTag;
use crate::text::spec_is_digit;

verus! {

broadcast use vstd::seq_lib::group_to_multiset_ensures;

/// The precedence-relevant part of a semantic version: the numeric triple
/// and whether the version is stable (free of a pre-release component).
#[derive(Clone, Copy, PartialEq, Eq, Structural, Debug)]
pub struct SemVer {
    pub major: u64,
    pub minor: u64,
    pub patch: u64,
    pub stable: bool,
}

/// What semver::Version::parse returns for a string: the numeric triple
/// and whether a pre-release component is present, or nothing when the
/// string is not a semantic version.
pub uninterp spec fn semver_of(s: Seq<char>) -> Option<SemVer>;

/// Whether semver::VersionReq::parse accepts a string as a version
/// constraint.
pub uninterp spec fn req_parses(s: Seq<char>) -> bool;

/// Whether the version written `v` satisfies the constraint written `req`,
/// as semver::VersionReq::matches decides it.
pub uninterp spec fn req_match_of(req: Seq<char>, v: Seq<char>) -> bool;

/// Relies on semver::Version::parse: the major, minor and patch numbers
/// and the presence of a pre-release component are a function of the text
/// alone.
#[verifier::external_body]
pub(crate) fn semver_parse(s: &str) -> (r: Option<SemVer>)
    ensures
        r == semver_of(s@),
{
    match semver::Version::parse(s) {
        Ok(v) => Some(
            SemVer { major: v.major, minor: v.minor, patch: v.patch, stable: v.pre.is_empty() },
        ),
        Err(_) => None,
    }
}

/// Relies on semver::VersionReq::parse: whether the text is a version
/// constraint is a function of the text alone.
#[verifier::external_body]
pub(crate) fn req_check(s: &str) -> (r: bool)
    ensures
        r == req_parses(s@),
{
    semver::VersionReq::parse(s).is_ok()
}

/// Relies on semver::VersionReq::parse, semver::Version::parse and
/// semver::VersionReq::matches: all three results are functions of the
/// two texts alone.  Nothing is returned when either text fails to parse.
#[verifier::external_body]
pub(crate) fn req_match(req: &str, v: &str) -> (r: Option<bool>)
    ensures
        (r is Some) == (req_parses(req@) && semver_of(v@) is Some),
        r is Some ==> r->Some_0 == req_match_of(req@, v@),
{
    match (semver::VersionReq::parse(req), semver::Version::parse(v)) {
        (Ok(rq), Ok(ver)) => Some(rq.matches(&ver)),
        _ => None,
    }
}

/// Precedence order on the model: the numeric triple decides, and with
/// equal triples a pre-release version precedes the stable one.
pub open spec fn spec_version_lt(a: SemVer, b: SemVer) -> bool {
    ||| a.major < b.major
    ||| (a.major == b.major && a.minor < b.minor)
    ||| (a.major == b.major && a.minor == b.minor && a.patch < b.patch)
    ||| (a.major == b.major && a.minor == b.minor && a.patch == b.patch && !a.stable && b.stable)
}

pub open spec fn spec_version_ge(a: SemVer, b: SemVer) -> bool {
    !spec_version_lt(a, b)
}

/// Whether `a` precedes `b`.
pub fn version_lt(a: &SemVer, b: &SemVer) -> (r: bool)
    ensures
        r == spec_version_lt(*a, *b),
{
    if a.major != b.major {
        a.major < b.major
    } else if a.minor != b.minor {
        a.minor < b.minor
    } else if a.patch != b.patch {
        a.patch < b.patch
    } else {
        !a.stable && b.stable
    }
}

/// The tag with its leading non-numeric prefix removed: characters are
/// dropped until the first ASCII decimal digit.
pub open spec fn spec_strip_prefix(s: Seq<char>) -> Seq<char>
    decreases s.len(),
{
    if s.len() == 0 {
        s
    } else if spec_is_digit(s[0]) {
        s
    } else {
        spec_strip_prefix(s.skip(1))
    }
}

/// Strips the leading non-numeric prefix from a tag.
pub fn strip_prefix(s: &str) -> (r: String)
    ensures
        r@ == spec_strip_prefix(s@),
{
    let n = s.unicode_len();
    let mut i: usize = 0;
    proof {
        assert(s@.skip(0) =~= s@);
    }
    while i < n && !('0' <= s.get_char(i) && s.get_char(i) <= '9')
        invariant
            n == s@.len(),
            i <= n,
            spec_strip_prefix(s@) == spec_strip_prefix(s@.skip(i as int)),
        decreases n - i,
    {
        proof {
            assert(s@.skip(i as int)[0] == s@[i as int]);
            assert(s@.skip(i as int).skip(1) =~= s@.skip(i + 1));
        }
        i = i + 1;
    }
    let r = s.substring_char(i, n);
    proof {
        if i < n {
            assert(s@.skip(i as int)[0] == s@[i as int]);
        }
        assert(s@.skip(i as int) =~= s@.subrange(i as int, n as int));
    }
    r.to_owned()
}

/// A surviving version string: it parses as a semantic version with no
/// pre-release component.
pub open spec fn spec_is_stable_version(s: Seq<char>) -> bool {
    match semver_of(s) {
        Some(v) => v.stable,
        None => false,
    }
}

/// The stripped tags that survive: those that parse as stable semantic
/// versions, in tag order.
pub open spec fn spec_surviving(tags: Seq<GitTag>) -> Seq<Seq<char>>
    decreases tags.len(),
{
    if tags.len() == 0 {
        Seq::empty()
    } else {
        let rest = spec_surviving(tags.drop_last());
        let t = spec_strip_prefix(tags.last().tag@);
        if spec_is_stable_version(t) {
            rest.push(t)
        } else {
            rest
        }
    }
}

/// A version list sorted newest first.
pub open spec fn spec_sorted_desc(vs: Seq<Seq<char>>) -> bool {
    forall|i: int, j: int|
        0 <= i < j < vs.len() ==> spec_version_ge(
            semver_of(vs[i])->Some_0,
            semver_of(vs[j])->Some_0,
        )
}

struct Entry {
    ver: SemVer,
    text: String,
}

impl Entry {
    spec fn wf(self) -> bool {
        semver_of(self.text@) == Some(self.ver) && self.ver.stable
    }
}

/// The version texts of a run of entries.
spec fn entry_texts(es: Seq<Entry>) -> Seq<Seq<char>> {
    es.map_values(|e: Entry| e.text@)
}

/// Sorts entries newest first by repeatedly taking the newest of what is
/// left, keeping the collection of texts.
fn sort_entries_desc(input: Vec<Entry>) -> (r: Vec<Entry>)
    requires
        forall|k: int| 0 <= k < input@.len() ==> (#[trigger] input@[k]).wf(),
    ensures
        forall|k: int| 0 <= k < r@.len() ==> (#[trigger] r@[k]).wf(),
        spec_sorted_desc(entry_texts(r@)),
        entry_texts(r@).to_multiset() == entry_texts(input@).to_multiset(),
{
    let mut pending = input;
    let mut out: Vec<Entry> = Vec::new();
    proof {
        assert(entry_texts(out@).to_multiset() =~= Multiset::<Seq<char>>::empty());
        assert(entry_texts(out@).to_multiset().add(entry_texts(pending@).to_multiset())
            =~= entry_texts(input@).to_multiset());
    }
    while pending.len() > 0
        invariant
            forall|k: int| 0 <= k < pending@.len() ==> (#[trigger] pending@[k]).wf(),
            forall|k: int| 0 <= k < out@.len() ==> (#[trigger] out@[k]).wf(),
            spec_sorted_desc(entry_texts(out@)),
            forall|a: int, b: int|
                0 <= a < out@.len() && 0 <= b < pending@.len() ==> spec_version_ge(
                    (#[trigger] out@[a]).ver,
                    (#[trigger] pending@[b]).ver,
                ),
            entry_texts(out@).to_multiset().add(entry_texts(pending@).to_multiset())
                == entry_texts(input@).to_multiset(),
        decreases pending@.len(),
    {
        let mut m: usize = 0;
        let mut j: usize = 1;
        while j < pending.len()
            invariant
                pending@.len() > 0,
                m < j,
                1 <= j <= pending@.len(),
                forall|k: int| 0 <= k < j ==> spec_version_ge(pending@[m as int].ver, (#[trigger] pending@[k]).ver),
            decreases pending@.len() - j,
        {
            if version_lt(&pending[m].ver, &pending[j].ver) {
                m = j;
            }
            j = j + 1;
        }
        let ghost old_pending = pending@;
        let ghost old_out = out@;
        let e = pending.remove(m);
        out.push(e);
        proof {
            let pt = entry_texts(old_pending);
            let ot = entry_texts(old_out);
            assert(entry_texts(pending@) =~= pt.remove(m as int));
            assert(entry_texts(out@) =~= ot.push(e.text@));
            pt.to_multiset_ensures();
            ot.to_multiset_ensures();
            assert(pt[m as int] == e.text@);
            assert(pt.to_multiset().contains(e.text@)) by {
                assert(pt[m as int] == e.text@);
            }
            assert(entry_texts(out@).to_multiset().add(entry_texts(pending@).to_multiset()) =~= ot
                .to_multiset()
                .add(pt.to_multiset()));
            // the new last element of out keeps the run descending
            assert forall|p: int, q: int| 0 <= p < q < out@.len() implies spec_version_ge(
                semver_of(entry_texts(out@)[p])->Some_0,
                semver_of(entry_texts(out@)[q])->Some_0,
            ) by {
                assert(entry_texts(out@)[p] == out@[p].text@);
                assert(entry_texts(out@)[q] == out@[q].text@);
                if q < out@.len() - 1 {
                    assert(entry_texts(old_out)[p] == old_out[p].text@);
                    assert(entry_texts(old_out)[q] == old_out[q].text@);
                } else {
                    assert(out@[q] == e);
                    assert(old_pending[m as int] == e);
                }
            }
        }
    }
    proof {
        assert(entry_texts(pending@).to_multiset() =~= Multiset::<Seq<char>>::empty());
        assert(entry_texts(out@).to_multiset().add(entry_texts(pending@).to_multiset())
            =~= entry_texts(out@).to_multiset());
    }
    out
}

/// The versions the repository's tags announce: each tag is stripped of
/// its leading non-numeric prefix and parsed; tags that are not semantic
/// versions, and versions with a pre-release component, are discarded; the
/// survivors are returned newest first.
pub fn versions_from_tags(tags: &Vec<GitTag>) -> (r: Vec<String>)
    ensures
        r@.map_values(|s: String| s@).to_multiset() == spec_surviving(tags@).to_multiset(),
        forall|i: int| 0 <= i < r@.len() ==> spec_is_stable_version((#[trigger] r@[i])@),
        spec_sorted_desc(r@.map_values(|s: String| s@)),
{
    let mut entries: Vec<Entry> = Vec::new();
    let mut i: usize = 0;
    proof {
        assert(entry_texts(entries@) =~= spec_surviving(tags@.subrange(0, 0)));
    }
    while i < tags.len()
        invariant
            i <= tags@.len(),
            entry_texts(entries@) == spec_surviving(tags@.subrange(0, i as int)),
            forall|k: int| 0 <= k < entries@.len() ==> (#[trigger] entries@[k]).wf(),
        decreases tags@.len() - i,
    {
        proof {
            assert(tags@.subrange(0, i + 1).drop_last() =~= tags@.subrange(0, i as int));
            assert(tags@.subrange(0, i + 1).last() == tags@[i as int]);
        }
        let t = strip_prefix(tags[i].tag.as_str());
        match semver_parse(t.as_str()) {
            Some(v) => {
                if v.stable {
                    entries.push(Entry { ver: v, text: t });
                    proof {
                        assert(entry_texts(entries@) =~~= spec_surviving(
                            tags@.subrange(0, i + 1),
                        ));
                    }
                } else {
                    proof {
                        assert(entry_texts(entries@) =~~= spec_surviving(
                            tags@.subrange(0, i + 1),
                        ));
                    }
                }
            },
            None => {
                proof {
                    assert(entry_texts(entries@) =~~= spec_surviving(tags@.subrange(0, i + 1)));
                }
            },
        }
        i = i + 1;
    }
    proof {
        assert(tags@.subrange(0, tags@.len() as int) =~= tags@);
    }
    let sorted = sort_entries_desc(entries);
    let mut r: Vec<String> = Vec::new();
    let mut k: usize = 0;
    while k < sorted.len()
        invariant
            k <= sorted@.len(),
            r@.map_values(|s: String| s@) == entry_texts(sorted@.subrange(0, k as int)),
            forall|p: int| 0 <= p < sorted@.len() ==> (#[trigger] sorted@[p]).wf(),
            spec_sorted_desc(entry_texts(sorted@)),
            entry_texts(sorted@).to_multiset() == spec_surviving(tags@).to_multiset(),
        decreases sorted@.len() - k,
    {
        let ghost old_map = r@.map_values(|s: String| s@);
        let x = sorted[k].text.clone();
        proof {
            assert(x == sorted@[k as int].text);
        }
        r.push(x);
        k = k + 1;
        proof {
            assert(r@.map_values(|s: String| s@) =~= old_map.push(sorted@[k - 1].text@));
            assert(entry_texts(sorted@.subrange(0, k as int)) =~= entry_texts(
                sorted@.subrange(0, k - 1),
            ).push(sorted@[k - 1].text@));
            assert(r@.map_values(|s: String| s@) =~~= entry_texts(sorted@.subrange(0, k as int)));
        }
    }
    proof {
        assert(sorted@.subrange(0, sorted@.len() as int) =~= sorted@);
        assert(r@.map_values(|s: String| s@) =~~= entry_texts(sorted@));
        assert forall|i2: int| 0 <= i2 < r@.len() implies spec_is_stable_version(
            (#[trigger] r@[i2])@,
        ) by {
            assert(r@.map_values(|s: String| s@)[i2] == r@[i2]@);
            assert(entry_texts(sorted@)[i2] == sorted@[i2].text@);
            assert(sorted@[i2].wf());
        }
    }
    r
}

/// A version list sorted newest first is strictly descending when no two
/// of its members share a precedence: with the shared order non-strict and
/// all parsed versions distinct, every later member precedes every earlier
/// one.
pub proof fn lemma_sorted_distinct_strictly_descending(vs: Seq<Seq<char>>)
    requires
        forall|i: int| 0 <= i < vs.len() ==> spec_is_stable_version(#[trigger] vs[i]),
        spec_sorted_desc(vs),
        forall|i: int, j: int| 0 <= i < j < vs.len() ==> semver_of(vs[i]) != semver_of(vs[j]),
    ensures
        forall|i: int, j: int|
            0 <= i < j < vs.len() ==> spec_version_lt(
                semver_of(vs[j])->Some_0,
                semver_of(vs[i])->Some_0,
            ),
{
    assert forall|i: int, j: int| 0 <= i < j < vs.len() implies spec_version_lt(
        semver_of(vs[j])->Some_0,
        semver_of(vs[i])->Some_0,
    ) by {
        assert(spec_is_stable_version(vs[i]));
        assert(spec_is_stable_version(vs[j]));
        assert(spec_version_ge(semver_of(vs[i])->Some_0, semver_of(vs[j])->Some_0));
        assert(semver_of(vs[i]) != semver_of(vs[j]));
    }
}

/// A selection failure: the constraint is not a version requirement, or no
/// listed version satisfies it.
#[derive(Clone, Copy, PartialEq, Eq, Structural, Debug)]
pub enum SelectError {
    InvalidConstraint,
    NoMatch,
}

/// The version written `v` parses and satisfies the constraint.
pub open spec fn spec_version_matches(req: Seq<char>, v: Seq<char>) -> bool {
    semver_of(v) is Some && req_match_of(req, v)
}

/// The first index of a version that satisfies the constraint.
pub open spec fn spec_first_version_match(vs: Seq<Seq<char>>, c: Seq<char>) -> Option<int>
    decreases vs.len(),
{
    if vs.len() == 0 {
        None
    } else if spec_version_matches(c, vs[0]) {
        Some(0)
    } else {
        match spec_first_version_match(vs.skip(1), c) {
            Some(i) => Some(i + 1),
            None => None,
        }
    }
}

/// A scan that found a first satisfying version names the first index.
proof fn lemma_first_version_found(vs: Seq<Seq<char>>, c: Seq<char>, i: int)
    requires
        0 <= i < vs.len(),
        spec_version_matches(c, vs[i]),
        forall|j: int| 0 <= j < i ==> !spec_version_matches(c, #[trigger] vs[j]),
    ensures
        spec_first_version_match(vs, c) == Some(i),
    decreases i,
{
    if i == 0 {
    } else {
        assert(!spec_version_matches(c, vs[0]));
        assert(vs.skip(1)[i - 1] == vs[i]);
        assert(forall|j: int| 0 <= j < i - 1 ==> (#[trigger] vs.skip(1)[j]) == vs[j + 1]);
        lemma_first_version_found(vs.skip(1), c, i - 1);
    }
}

/// A scan that found no satisfying version names no index.
proof fn lemma_first_version_none(vs: Seq<Seq<char>>, c: Seq<char>)
    requires
        forall|j: int| 0 <= j < vs.len() ==> !spec_version_matches(c, #[trigger] vs[j]),
    ensures
        spec_first_version_match(vs, c) is None,
    decreases vs.len(),
{
    if vs.len() > 0 {
        assert(forall|j: int| 0 <= j < vs.len() - 1 ==> (#[trigger] vs.skip(1)[j]) == vs[j + 1]);
        lemma_first_version_none(vs.skip(1), c);
    }
}

/// Picks the first version of the list that satisfies the constraint.
/// With the list newest first, that is the newest satisfying version.
pub fn select_version(constraint: &str, versions: &Vec<String>) -> (r: Result<
    String,
    SelectError,
>)
    ensures
        (r == Err::<String, SelectError>(SelectError::InvalidConstraint)) == !req_parses(
            constraint@,
        ),
        req_parses(constraint@) ==> match spec_first_version_match(
            versions@.map_values(|s: String| s@),
            constraint@,
        ) {
            None => (r matches Err(e) && e == SelectError::NoMatch),
            Some(i) => (r matches Ok(s) && s@ == versions@.map_values(|s2: String| s2@)[i]),
        },
{
    let ghost vviews = versions@.map_values(|s: String| s@);
    if !req_check(constraint) {
        return Err(SelectError::InvalidConstraint);
    }
    let mut i: usize = 0;
    while i < versions.len()
        invariant
            vviews == versions@.map_values(|s: String| s@),
            i <= versions@.len(),
            req_parses(constraint@),
            forall|j: int| 0 <= j < i ==> !spec_version_matches(constraint@, #[trigger] vviews[j]),
        decreases versions@.len() - i,
    {
        proof {
            assert(vviews[i as int] == versions@[i as int]@);
        }
        match req_match(constraint, versions[i].as_str()) {
            Some(true) => {
                proof {
                    lemma_first_version_found(vviews, constraint@, i as int);
                }
                return Ok(versions[i].clone());
            },
            _ => {},
        }
        i = i + 1;
    }
    proof {
        lemma_first_version_none(vviews, constraint@);
    }
    Err(SelectError::NoMatch)
}

} // verus!

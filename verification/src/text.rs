//! Verified building blocks for the string work the package manager does:
//! path joining, prefix and suffix tests, case folding and pattern
//! replacement.

use vstd::prelude::*;

verus! {

/// `a` and `b` joined by a single separator; a trailing separator on `a`
/// is not doubled.
pub open spec fn spec_join_path(a: Seq<char>, b: Seq<char>) -> Seq<char> {
    if a.len() > 0 && a.last() == '/' {
        a + b
    } else {
        a + seq!['/'] + b
    }
}

/// `p` is a prefix of `s`.
pub open spec fn spec_starts_with(s: Seq<char>, p: Seq<char>) -> bool {
    p.len() <= s.len() && s.subrange(0, p.len() as int) == p
}

/// `p` is a suffix of `s`.
pub open spec fn spec_ends_with(s: Seq<char>, p: Seq<char>) -> bool {
    p.len() <= s.len() && s.subrange(s.len() - p.len(), s.len() as int) == p
}

/// An ASCII upper-case letter folded to lower case; everything else kept.
pub open spec fn spec_lower_char(c: char) -> char {
    if 'A' <= c && c <= 'Z' {
        (((c as u8) + 32) as char)
    } else {
        c
    }
}

/// The sequence with every ASCII upper-case letter folded to lower case.
pub open spec fn spec_lower(s: Seq<char>) -> Seq<char> {
    s.map_values(|c: char| spec_lower_char(c))
}

/// An ASCII decimal digit.
pub open spec fn spec_is_digit(c: char) -> bool {
    '0' <= c && c <= '9'
}

/// Every occurrence of `pat` in `s`, scanned left to right without
/// overlap, replaced by `rep`.  An empty pattern replaces nothing.
pub open spec fn spec_replace_all(s: Seq<char>, pat: Seq<char>, rep: Seq<char>) -> Seq<char>
    decreases s.len(),
{
    if pat.len() == 0 || s.len() < pat.len() {
        s
    } else if spec_starts_with(s, pat) {
        rep + spec_replace_all(s.skip(pat.len() as int), pat, rep)
    } else {
        seq![s[0]] + spec_replace_all(s.skip(1), pat, rep)
    }
}

/// A space or a horizontal tab: the separators between the fields of a
/// line of command output.
pub open spec fn spec_is_space(c: char) -> bool {
    c == ' ' || c == '\t'
}

/// The pieces of `s` between occurrences of `sep`.  A string without the
/// separator is one piece; every separator ends a piece, so a trailing
/// separator yields a final empty piece.
pub open spec fn spec_split(s: Seq<char>, sep: char) -> Seq<Seq<char>>
    decreases s.len(),
{
    if s.len() == 0 {
        seq![Seq::empty()]
    } else {
        let r = spec_split(s.drop_last(), sep);
        if s.last() == sep {
            r + seq![Seq::empty()]
        } else {
            r.update(r.len() - 1, r.last().push(s.last()))
        }
    }
}

/// The maximal runs of non-blank characters of `s`, in order.
pub open spec fn spec_fields(s: Seq<char>) -> Seq<Seq<char>>
    decreases s.len(),
{
    if s.len() == 0 {
        Seq::empty()
    } else {
        let r = spec_fields(s.drop_last());
        let c = s.last();
        if spec_is_space(c) {
            r
        } else if s.len() > 1 && !spec_is_space(s[s.len() - 2]) && r.len() > 0 {
            r.update(r.len() - 1, r.last().push(c))
        } else {
            r + seq![seq![c]]
        }
    }
}

/// A split always yields at least one piece.
pub proof fn lemma_split_len(s: Seq<char>, sep: char)
    ensures
        spec_split(s, sep).len() >= 1,
    decreases s.len(),
{
    if s.len() > 0 {
        lemma_split_len(s.drop_last(), sep);
    }
}

/// The line with one trailing carriage return removed, as the lines of
/// command output are read on any platform.
pub open spec fn spec_strip_cr(s: Seq<char>) -> Seq<char> {
    if s.len() > 0 && s.last() == '\r' {
        s.drop_last()
    } else {
        s
    }
}

/// The lines of `s`: the pieces between newlines, each without a trailing
/// carriage return, and without the empty piece a final newline leaves.
pub open spec fn spec_lines(s: Seq<char>) -> Seq<Seq<char>> {
    let pieces = spec_split(s, '\n');
    let kept = if pieces.last().len() == 0 {
        pieces.drop_last()
    } else {
        pieces
    };
    kept.map_values(|p: Seq<char>| spec_strip_cr(p))
}

/// Relies on String::push: appends one character to the string.
#[verifier::external_body]
pub(crate) fn push_char(s: &mut String, c: char)
    ensures
        final(s)@ == old(s)@.push(c),
{
    s.push(c)
}

/// The characters of `s`, as a vector.
pub fn to_chars(s: &str) -> (r: Vec<char>)
    ensures
        r@ == s@,
{
    let n = s.unicode_len();
    let mut r: Vec<char> = Vec::new();
    let mut i: usize = 0;
    while i < n
        invariant
            n == s@.len(),
            i <= n,
            r@ == s@.subrange(0, i as int),
        decreases n - i,
    {
        r.push(s.get_char(i));
        i = i + 1;
        proof {
            assert(r@ =~= s@.subrange(0, i as int));
        }
    }
    proof {
        assert(r@ =~= s@);
    }
    r
}

/// The string holding the characters of `v`.
pub fn from_chars(v: &Vec<char>) -> (r: String)
    ensures
        r@ == v@,
{
    let mut r = String::new();
    let mut i: usize = 0;
    while i < v.len()
        invariant
            i <= v@.len(),
            r@ == v@.subrange(0, i as int),
        decreases v@.len() - i,
    {
        push_char(&mut r, v[i]);
        i = i + 1;
        proof {
            assert(r@ =~= v@.subrange(0, i as int));
        }
    }
    proof {
        assert(r@ =~= v@);
    }
    r
}

/// Joins `a` and `b` with a single path separator.
pub fn join_path(a: &str, b: &str) -> (r: String)
    ensures
        r@ == spec_join_path(a@, b@),
{
    let n = a.unicode_len();
    let mut r = String::from_str(a);
    if n == 0 || a.get_char(n - 1) != '/' {
        r.append("/");
        proof {
            reveal_strlit("/");
            assert(r@ =~= a@ + seq!['/']);
        }
    }
    r.append(b);
    r
}

/// Whether the characters of `s` and `t` are equal.
pub fn str_eq(s: &str, t: &str) -> (r: bool)
    ensures
        r == (s@ == t@),
{
    let n = s.unicode_len();
    if n != t.unicode_len() {
        proof {
            assert(s@ != t@);
        }
        return false;
    }
    let mut i: usize = 0;
    while i < n
        invariant
            n == s@.len() == t@.len(),
            i <= n,
            forall|k: int| 0 <= k < i ==> s@[k] == t@[k],
        decreases n - i,
    {
        if s.get_char(i) != t.get_char(i) {
            return false;
        }
        i = i + 1;
    }
    proof {
        assert(s@ =~= t@);
    }
    true
}

/// Whether `s` ends with the suffix `p`.
pub fn ends_with(s: &str, p: &str) -> (r: bool)
    ensures
        r == spec_ends_with(s@, p@),
{
    let n = s.unicode_len();
    let m = p.unicode_len();
    if m > n {
        return false;
    }
    let mut i: usize = 0;
    while i < m
        invariant
            n == s@.len(),
            m == p@.len(),
            m <= n,
            i <= m,
            forall|k: int| 0 <= k < i ==> s@[n - m + k] == p@[k],
        decreases m - i,
    {
        if s.get_char(n - m + i) != p.get_char(i) {
            proof {
                assert(s@.subrange(s@.len() - p@.len(), s@.len() as int)[i as int] != p@[i as int]);
            }
            return false;
        }
        i = i + 1;
    }
    proof {
        assert(s@.subrange(s@.len() - p@.len(), s@.len() as int) =~= p@);
    }
    true
}

/// Whether `s` starts with the prefix `p`.
pub fn starts_with(s: &str, p: &str) -> (r: bool)
    ensures
        r == spec_starts_with(s@, p@),
{
    let n = s.unicode_len();
    let m = p.unicode_len();
    if m > n {
        return false;
    }
    let mut i: usize = 0;
    while i < m
        invariant
            n == s@.len(),
            m == p@.len(),
            m <= n,
            i <= m,
            forall|k: int| 0 <= k < i ==> s@[k] == p@[k],
        decreases m - i,
    {
        if s.get_char(i) != p.get_char(i) {
            proof {
                assert(s@.subrange(0, p@.len() as int)[i as int] != p@[i as int]);
            }
            return false;
        }
        i = i + 1;
    }
    proof {
        assert(s@.subrange(0, p@.len() as int) =~= p@);
    }
    true
}

/// The character with ASCII upper case folded to lower case.
pub fn lower_char(c: char) -> (r: char)
    ensures
        r == spec_lower_char(c),
{
    if 'A' <= c && c <= 'Z' {
        ((c as u8) + 32) as char
    } else {
        c
    }
}

/// Whether `s` and `t` are equal up to ASCII case.
pub fn eq_ignore_ascii_case(s: &str, t: &str) -> (r: bool)
    ensures
        r == (spec_lower(s@) == spec_lower(t@)),
{
    let n = s.unicode_len();
    if n != t.unicode_len() {
        proof {
            assert(spec_lower(s@).len() != spec_lower(t@).len());
        }
        return false;
    }
    let mut i: usize = 0;
    while i < n
        invariant
            n == s@.len() == t@.len(),
            i <= n,
            forall|k: int| 0 <= k < i ==> spec_lower_char(s@[k]) == spec_lower_char(t@[k]),
        decreases n - i,
    {
        if lower_char(s.get_char(i)) != lower_char(t.get_char(i)) {
            proof {
                assert(spec_lower(s@)[i as int] != spec_lower(t@)[i as int]);
            }
            return false;
        }
        i = i + 1;
    }
    proof {
        assert(spec_lower(s@) =~= spec_lower(t@));
    }
    true
}

/// Whether `pat` occurs in `s` at position `i`.
pub fn matches_at(s: &Vec<char>, i: usize, pat: &Vec<char>) -> (r: bool)
    requires
        i <= s@.len(),
    ensures
        r == (i + pat@.len() <= s@.len() && s@.subrange(i as int, i + pat@.len()) == pat@),
{
    if pat.len() > s.len() - i {
        return false;
    }
    let n = s.len();
    let mut k: usize = 0;
    while k < pat.len()
        invariant
            n == s@.len(),
            i + pat@.len() <= s@.len(),
            k <= pat@.len(),
            forall|j: int| 0 <= j < k ==> s@[i + j] == pat@[j],
        decreases pat@.len() - k,
    {
        if s[i + k] != pat[k] {
            proof {
                assert(s@.subrange(i as int, i + pat@.len())[k as int] != pat@[k as int]);
            }
            return false;
        }
        k = k + 1;
    }
    proof {
        assert(s@.subrange(i as int, i + pat@.len()) =~= pat@);
    }
    true
}

/// Every occurrence of `pat` in `s`, scanned left to right, replaced by
/// `rep`.
pub fn replace_all(s: &Vec<char>, pat: &Vec<char>, rep: &Vec<char>) -> (r: Vec<char>)
    ensures
        r@ == spec_replace_all(s@, pat@, rep@),
{
    let mut out: Vec<char> = Vec::new();
    let mut i: usize = 0;
    proof {
        assert(s@.skip(0) =~= s@);
        assert(Seq::<char>::empty() + spec_replace_all(s@, pat@, rep@) =~= spec_replace_all(
            s@,
            pat@,
            rep@,
        ));
    }
    while i < s.len()
        invariant
            i <= s@.len(),
            spec_replace_all(s@, pat@, rep@) == out@ + spec_replace_all(
                s@.skip(i as int),
                pat@,
                rep@,
            ),
        decreases s@.len() - i,
    {
        if pat.len() > 0 && matches_at(s, i, pat) {
            proof {
                assert(s@.skip(i as int).subrange(0, pat@.len() as int) =~= s@.subrange(
                    i as int,
                    i + pat@.len(),
                ));
                assert(spec_starts_with(s@.skip(i as int), pat@));
                assert(s@.skip(i as int).skip(pat@.len() as int) =~= s@.skip(i + pat@.len()));
            }
            let ghost pre = out@;
            let mut k: usize = 0;
            while k < rep.len()
                invariant
                    k <= rep@.len(),
                    out@ == pre + rep@.subrange(0, k as int),
                decreases rep@.len() - k,
            {
                out.push(rep[k]);
                k = k + 1;
                proof {
                    assert(out@ =~= pre + rep@.subrange(0, k as int));
                }
            }
            proof {
                assert(rep@.subrange(0, rep@.len() as int) =~= rep@);
            }
            i = i + pat.len();
        } else {
            proof {
                if pat@.len() != 0 && s@.skip(i as int).len() >= pat@.len() {
                    assert(s@.skip(i as int).subrange(0, pat@.len() as int) =~= s@.subrange(
                        i as int,
                        i + pat@.len(),
                    ));
                }
                assert(s@.skip(i as int)[0] == s@[i as int]);
                assert(s@.skip(i as int).skip(1) =~= s@.skip(i + 1));
            }
            out.push(s[i]);
            i = i + 1;
        }
    }
    proof {
        assert(s@.skip(i as int) =~= Seq::<char>::empty());
        assert(out@ + Seq::<char>::empty() =~= out@);
    }
    out
}

/// The pieces of a character vector, as `spec_split` cuts them.
pub fn split_chars(s: &Vec<char>, sep: char) -> (r: Vec<Vec<char>>)
    ensures
        r@.map_values(|p: Vec<char>| p@) == spec_split(s@, sep),
{
    let mut out: Vec<Vec<char>> = Vec::new();
    let mut cur: Vec<char> = Vec::new();
    let mut i: usize = 0;
    proof {
        assert(s@.subrange(0, 0) =~= Seq::<char>::empty());
        assert(out@.map_values(|p: Vec<char>| p@).push(cur@) =~~= spec_split(
            s@.subrange(0, 0),
            sep,
        ));
    }
    while i < s.len()
        invariant
            i <= s@.len(),
            out@.map_values(|p: Vec<char>| p@).push(cur@) == spec_split(s@.subrange(0, i as int), sep),
        decreases s@.len() - i,
    {
        let ghost pref = s@.subrange(0, i as int);
        let ghost prev_out = out@.map_values(|p: Vec<char>| p@);
        proof {
            assert(s@.subrange(0, i + 1).drop_last() =~= pref);
            assert(s@.subrange(0, i + 1).last() == s@[i as int]);
        }
        let c = s[i];
        if c == sep {
            out.push(cur);
            cur = Vec::new();
            proof {
                assert(out@.map_values(|p: Vec<char>| p@) =~= prev_out.push(
                    spec_split(pref, sep).last(),
                ));
                assert(out@.map_values(|p: Vec<char>| p@).push(cur@) =~= spec_split(
                    s@.subrange(0, i + 1),
                    sep,
                ));
            }
        } else {
            cur.push(c);
            proof {
                assert(out@.map_values(|p: Vec<char>| p@).push(cur@) =~~= spec_split(
                    s@.subrange(0, i + 1),
                    sep,
                ));
            }
        }
        i = i + 1;
    }
    out.push(cur);
    proof {
        assert(s@.subrange(0, s@.len() as int) =~= s@);
    }
    out
}

/// The non-blank fields of a character vector, as `spec_fields` cuts them.
pub fn fields_chars(s: &Vec<char>) -> (r: Vec<Vec<char>>)
    ensures
        r@.map_values(|p: Vec<char>| p@) == spec_fields(s@),
{
    let mut out: Vec<Vec<char>> = Vec::new();
    let mut cur: Vec<char> = Vec::new();
    let mut i: usize = 0;
    proof {
        assert(s@.subrange(0, 0) =~= Seq::<char>::empty());
    }
    while i < s.len()
        invariant
            i <= s@.len(),
            cur@.len() == 0 ==> {
                &&& out@.map_values(|p: Vec<char>| p@) == spec_fields(s@.subrange(0, i as int))
                &&& (i == 0 || spec_is_space(s@[i - 1]))
            },
            cur@.len() > 0 ==> {
                &&& out@.map_values(|p: Vec<char>| p@).push(cur@) == spec_fields(
                    s@.subrange(0, i as int),
                )
                &&& i > 0 && !spec_is_space(s@[i - 1])
            },
        decreases s@.len() - i,
    {
        let ghost pref = s@.subrange(0, i as int);
        let ghost prev_out = out@.map_values(|p: Vec<char>| p@);
        proof {
            assert(s@.subrange(0, i + 1).drop_last() =~= pref);
            assert(s@.subrange(0, i + 1).last() == s@[i as int]);
            if i > 0 {
                assert(s@.subrange(0, i + 1)[i - 1] == s@[i - 1]);
            }
        }
        let c = s[i];
        if c == ' ' || c == '\t' {
            if cur.len() > 0 {
                out.push(cur);
                cur = Vec::new();
                proof {
                    assert(out@.map_values(|p: Vec<char>| p@) =~~= prev_out.push(
                        spec_fields(pref).last(),
                    ));
                }
            }
            proof {
                assert(out@.map_values(|p: Vec<char>| p@) =~~= spec_fields(s@.subrange(0, i + 1)));
            }
        } else {
            cur.push(c);
            proof {
                if cur@.len() == 1 {
                    assert(out@.map_values(|p: Vec<char>| p@).push(cur@) =~~= prev_out + seq![
                        seq![c],
                    ]);
                    assert(out@.map_values(|p: Vec<char>| p@).push(cur@) =~~= spec_fields(
                        s@.subrange(0, i + 1),
                    ));
                } else {
                    assert(prev_out.push(cur@) =~~= prev_out.push(cur@.drop_last()).update(
                        prev_out.push(cur@.drop_last()).len() - 1,
                        cur@.drop_last().push(c),
                    ));
                    assert(out@.map_values(|p: Vec<char>| p@).push(cur@) =~~= spec_fields(
                        s@.subrange(0, i + 1),
                    ));
                }
            }
        }
        i = i + 1;
    }
    if cur.len() > 0 {
        out.push(cur);
        proof {
            assert(out@.map_values(|p: Vec<char>| p@) =~~= spec_fields(s@.subrange(0, i as int)).drop_last().push(
                spec_fields(s@.subrange(0, i as int)).last(),
            ));
            assert(spec_fields(s@.subrange(0, i as int)).drop_last().push(
                spec_fields(s@.subrange(0, i as int)).last(),
            ) =~~= spec_fields(s@.subrange(0, i as int)));
        }
    }
    proof {
        assert(s@.subrange(0, s@.len() as int) =~= s@);
    }
    out
}

/// The characters of `v` between `from` and `to`.
pub fn subvec(v: &Vec<char>, from: usize, to: usize) -> (r: Vec<char>)
    requires
        from <= to <= v@.len(),
    ensures
        r@ == v@.subrange(from as int, to as int),
{
    let mut r: Vec<char> = Vec::new();
    let mut i: usize = from;
    while i < to
        invariant
            from <= i <= to <= v@.len(),
            r@ == v@.subrange(from as int, i as int),
        decreases to - i,
    {
        r.push(v[i]);
        i = i + 1;
        proof {
            assert(r@ =~= v@.subrange(from as int, i as int));
        }
    }
    r
}

/// Appends the characters of `add` to `out`.
pub fn push_all(out: &mut Vec<char>, add: &Vec<char>)
    ensures
        final(out)@ == old(out)@ + add@,
{
    let ghost pre = out@;
    let mut k: usize = 0;
    while k < add.len()
        invariant
            k <= add@.len(),
            out@ == pre + add@.subrange(0, k as int),
        decreases add@.len() - k,
    {
        out.push(add[k]);
        k = k + 1;
        proof {
            assert(out@ =~= pre + add@.subrange(0, k as int));
        }
    }
    proof {
        assert(add@.subrange(0, add@.len() as int) =~= add@);
    }
}

/// The strings of `v`, copied.
pub fn copy_strings(v: &Vec<String>) -> (r: Vec<String>)
    ensures
        r@ == v@,
{
    let mut r: Vec<String> = Vec::new();
    let mut i: usize = 0;
    while i < v.len()
        invariant
            i <= v@.len(),
            r@ == v@.subrange(0, i as int),
        decreases v@.len() - i,
    {
        r.push(v[i].clone());
        i = i + 1;
        proof {
            assert(r@ =~= v@.subrange(0, i as int));
        }
    }
    proof {
        assert(r@ =~= v@);
    }
    r
}

/// The ASCII digit for a value below ten.
pub open spec fn spec_digit(d: int) -> char {
    ((48 + d) as u8) as char
}

/// The decimal writing of `n`, most significant digit first.
pub open spec fn spec_dec(n: int) -> Seq<char>
    decreases n,
{
    if n < 10 {
        seq![spec_digit(if n >= 0 {
            n
        } else {
            0
        })]
    } else {
        spec_dec(n / 10).push(spec_digit(n % 10))
    }
}

/// Writes `n` in decimal.
pub fn u64_string(n: u64) -> (r: String)
    ensures
        r@ == spec_dec(n as int),
    decreases n,
{
    if n < 10 {
        let c = ((48 + n as u8)) as char;
        let mut s = String::new();
        push_char(&mut s, c);
        proof {
            assert(s@ =~= spec_dec(n as int));
        }
        s
    } else {
        let mut s = u64_string(n / 10);
        let d = (48 + (n % 10) as u8) as char;
        push_char(&mut s, d);
        s
    }
}

} // verus!

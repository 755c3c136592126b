//! Text as sequences of characters: the few string operations the library
//! needs, each with an exact contract over `Seq<char>`.

use vstd::prelude::*;

verus! {

/// The characters of `s`, in order.
pub fn chars_of(s: &str) -> (v: Vec<char>)
    ensures
        v@ == s@,
{
    let mut v: Vec<char> = Vec::new();
    for c in it: s.chars()
        invariant
            v@ == it.seq().take(it.index() as int),
            it.seq() == s@,
    {
        v.push(c);
    }
    v
}

/// Collects characters into a `String` with `String::from_iter`: the string
/// holds exactly the characters given, in order.
#[verifier::external_body]
pub(crate) fn string_of(chars: &Vec<char>) -> (s: String)
    ensures
        s@ == chars@,
{
    String::from_iter(chars.iter())
}

/// What a list of strings means: the text of each.
pub open spec fn strings_view(strings: Seq<String>) -> Seq<Seq<char>> {
    Seq::new(strings.len(), |i: int| strings[i]@)
}

/// Whether two strings hold the same characters.
pub fn str_equal(a: &str, b: &str) -> (r: bool)
    ensures
        r == (a@ == b@),
{
    let x = a.to_owned();
    let y = b.to_owned();
    x == y
}

/// `pat` occurs in `s` starting at position `i`.
pub open spec fn occurs_at<T>(s: Seq<T>, pat: Seq<T>, i: int) -> bool {
    0 <= i && i + pat.len() <= s.len() && s.subrange(i, i + pat.len()) == pat
}

/// `pat` occurs somewhere in `s`.
pub open spec fn occurs_in<T>(s: Seq<T>, pat: Seq<T>) -> bool {
    exists|i: int| occurs_at(s, pat, i)
}

/// Whether `pat` occurs in `s` at position `i`.
pub fn chars_match_at(s: &Vec<char>, pat: &Vec<char>, i: usize) -> (r: bool)
    requires
        i + pat.len() <= s.len(),
    ensures
        r == occurs_at(s@, pat@, i as int),
{
    let mut k: usize = 0;
    while k < pat.len()
        invariant
            i + pat.len() <= s.len(),
            k <= pat.len(),
            forall|j: int| 0 <= j < k ==> s@[i + j] == pat@[j],
        decreases pat.len() - k,
    {
        if s[i + k] != pat[k] {
            assert(s@.subrange(i as int, i + pat.len())[k as int] == s@[i + k]);
            return false;
        }
        k = k + 1;
    }
    assert(s@.subrange(i as int, i + pat.len()) =~= pat@);
    true
}

/// `s` with every occurrence of `pat` replaced by `sub`, found from the left
/// and never overlapping. An empty `pat` matches before every character and
/// at the end.
pub open spec fn replaced(s: Seq<char>, pat: Seq<char>, sub: Seq<char>) -> Seq<char>
    decreases s.len(),
{
    if pat.len() == 0 {
        if s.len() == 0 {
            sub
        } else {
            sub + seq![s[0]] + replaced(s.skip(1), pat, sub)
        }
    } else if s.len() < pat.len() {
        s
    } else if s.take(pat.len() as int) == pat {
        sub + replaced(s.skip(pat.len() as int), pat, sub)
    } else {
        seq![s[0]] + replaced(s.skip(1), pat, sub)
    }
}

fn push_all(out: &mut Vec<char>, src: &Vec<char>, from: usize)
    requires
        from <= src.len(),
    ensures
        final(out)@ == old(out)@ + src@.skip(from as int),
{
    let mut k: usize = from;
    while k < src.len()
        invariant
            from <= k <= src.len(),
            out@ == old(out)@ + src@.subrange(from as int, k as int),
        decreases src.len() - k,
    {
        out.push(src[k]);
        k = k + 1;
    }
    assert(src@.subrange(from as int, src.len() as int) =~= src@.skip(from as int));
}

/// Replaces every occurrence of `pat` in `s` by `sub`.
pub fn replace_chars(s: &Vec<char>, pat: &Vec<char>, sub: &Vec<char>) -> (out: Vec<char>)
    ensures
        out@ == replaced(s@, pat@, sub@),
{
    let n = s.len();
    let m = pat.len();
    let mut out: Vec<char> = Vec::new();
    let mut i: usize = 0;
    let mut done = false;
    assert(s@.skip(0) =~= s@);
    while !done
        invariant
            n == s.len(),
            m == pat.len(),
            i <= n,
            !done ==> replaced(s@, pat@, sub@) == out@ + replaced(s@.skip(i as int), pat@, sub@),
            done ==> replaced(s@, pat@, sub@) == out@,
        decreases (n - i) + (if done { 0int } else { 1int }),
    {
        let ghost rest = s@.skip(i as int);
        let ghost prev = out@;
        if m == 0 {
            push_all(&mut out, sub, 0);
            assert(sub@.skip(0) =~= sub@);
            if i == n {
                done = true;
            } else {
                out.push(s[i]);
                assert(rest.skip(1) =~= s@.skip(i + 1));
                assert(rest[0] == s@[i as int]);
                assert(out@ =~= prev + sub@ + seq![rest[0]]);
                i = i + 1;
            }
        } else if n - i < m {
            push_all(&mut out, s, i);
            done = true;
        } else if chars_match_at(s, pat, i) {
            assert(rest.take(m as int) =~= s@.subrange(i as int, i + m));
            push_all(&mut out, sub, 0);
            assert(sub@.skip(0) =~= sub@);
            assert(rest.skip(m as int) =~= s@.skip(i + m));
            i = i + m;
        } else {
            assert(rest.take(m as int) =~= s@.subrange(i as int, i + m));
            out.push(s[i]);
            assert(rest.skip(1) =~= s@.skip(i + 1));
            assert(rest[0] == s@[i as int]);
            i = i + 1;
        }
    }
    out
}

/// Replaces every occurrence of `pat` in `s` by `sub`, as `str::replace` does.
pub fn replace(s: &str, pat: &str, sub: &str) -> (out: String)
    ensures
        out@ == replaced(s@, pat@, sub@),
{
    let sc = chars_of(s);
    let oc = chars_of(pat);
    let nc = chars_of(sub);
    let rc = replace_chars(&sc, &oc, &nc);
    string_of(&rc)
}

/// Whether `s` ends with `suffix`.
pub fn ends_with(s: &str, suffix: &str) -> (r: bool)
    ensures
        r == suffix@.is_suffix_of(s@),
{
    let sc = chars_of(s);
    let pc = chars_of(suffix);
    if pc.len() > sc.len() {
        return false;
    }
    let start = sc.len() - pc.len();
    let r = chars_match_at(&sc, &pc, start);
    r
}

/// Whether `s` starts with `prefix`.
pub fn starts_with(s: &str, prefix: &str) -> (r: bool)
    ensures
        r == prefix@.is_prefix_of(s@),
{
    let sc = chars_of(s);
    let pc = chars_of(prefix);
    if pc.len() > sc.len() {
        return false;
    }
    let r = chars_match_at(&sc, &pc, 0);
    r
}

/// The two strings joined.
pub fn concat(a: &str, b: &str) -> (r: String)
    ensures
        r@ == a@ + b@,
{
    let mut r = a.to_owned();
    r.append(b);
    r
}

/// Where `pat` occurs at no position before `k`, the first `k` characters
/// stay as they are: only occurrences are touched.
pub proof fn lemma_replaced_keeps_prefix(s: Seq<char>, pat: Seq<char>, sub: Seq<char>, k: int)
    requires
        pat.len() > 0,
        0 <= k <= s.len(),
        forall|j: int| 0 <= j < k ==> !occurs_at(s, pat, j),
    ensures
        replaced(s, pat, sub) == s.take(k) + replaced(s.skip(k), pat, sub),
    decreases k,
{
    if k == 0 {
        assert(s.skip(0) =~= s);
        assert(s.take(0) + replaced(s, pat, sub) =~= replaced(s, pat, sub));
    } else if s.len() < pat.len() {
        assert(s.take(k) + s.skip(k) =~= s);
    } else {
        assert(s.take(pat.len() as int) =~= s.subrange(0, 0 + pat.len() as int));
        assert(!occurs_at(s, pat, 0));
        let t = s.skip(1);
        assert forall|j: int| 0 <= j < k - 1 implies !occurs_at(t, pat, j) by {
            if j + pat.len() <= t.len() {
                assert(t.subrange(j, j + pat.len()) =~= s.subrange(j + 1, j + 1 + pat.len()));
            }
            assert(!occurs_at(s, pat, j + 1));
        }
        lemma_replaced_keeps_prefix(t, pat, sub, k - 1);
        assert(t.skip(k - 1) =~= s.skip(k));
        assert(seq![s[0]] + (t.take(k - 1) + replaced(s.skip(k), pat, sub)) =~= s.take(k)
            + replaced(s.skip(k), pat, sub));
    }
}

/// A text in which `pat` does not occur is left as it is.
pub proof fn lemma_replaced_absent(s: Seq<char>, pat: Seq<char>, sub: Seq<char>)
    requires
        pat.len() > 0,
        !occurs_in(s, pat),
    ensures
        replaced(s, pat, sub) == s,
{
    lemma_replaced_keeps_prefix(s, pat, sub, s.len() as int);
    assert(s.take(s.len() as int) =~= s);
    assert(s.skip(s.len() as int) =~= Seq::<char>::empty());
    assert(s + Seq::<char>::empty() =~= s);
}

/// An occurrence at the start is replaced, and the rest is treated on its own.
pub proof fn lemma_replaced_at_start(rest: Seq<char>, pat: Seq<char>, sub: Seq<char>)
    requires
        pat.len() > 0,
    ensures
        replaced(pat + rest, pat, sub) == sub + replaced(rest, pat, sub),
{
    let s = pat + rest;
    assert(s.take(pat.len() as int) =~= pat);
    assert(s.skip(pat.len() as int) =~= rest);
}

/// An identifier that begins with the old one gets the new one in its
/// place and keeps what follows, where the old one does not occur again.
pub proof fn lemma_identifier_rewrite(suffix: Seq<char>, pat: Seq<char>, sub: Seq<char>)
    requires
        pat.len() > 0,
        !occurs_in(suffix, pat),
    ensures
        replaced(pat + suffix, pat, sub) == sub + suffix,
{
    lemma_replaced_at_start(suffix, pat, sub);
    lemma_replaced_absent(suffix, pat, sub);
}

/// The number that `str::parse` reads as a signed 64-bit integer from a
/// text; none where it reports an error.
pub uninterp spec fn parsed_integer(text: Seq<char>) -> Option<int>;

/// `str::parse` for `i64`: the number that the decimal text stands for, or
/// none where the text is no such number.
#[verifier::external_body]
pub(crate) fn parse_integer(text: &str) -> (r: Option<i64>)
    ensures
        match r {
            Some(n) => parsed_integer(text@) == Some(n as int),
            None => parsed_integer(text@) is None,
        },
{
    text.parse::<i64>().ok()
}

} // verus!

use vstd::prelude::*;

verus! {

/// The characters of an optional string.
pub open spec fn opt_text(o: Option<String>) -> Option<Seq<char>> {
    match o {
        Some(s) => Some(s@),
        None => None,
    }
}

/// `s` starts with `p`.
pub open spec fn starts_with(s: Seq<char>, p: Seq<char>) -> bool {
    p.len() <= s.len() && s.take(p.len() as int) == p
}

/// `s` with every leading copy of a non-empty `p` removed, as `str::trim_start_matches` does.
pub open spec fn spec_trim_start_matches(s: Seq<char>, p: Seq<char>) -> Seq<char>
    decreases s.len(),
{
    if p.len() > 0 && starts_with(s, p) {
        spec_trim_start_matches(s.skip(p.len() as int), p)
    } else {
        s
    }
}

/// `s` with every trailing `c` removed, as `str::trim_end_matches` with a `char` does.
pub open spec fn spec_trim_end_char(s: Seq<char>, c: char) -> Seq<char>
    decreases s.len(),
{
    if s.len() > 0 && s.last() == c {
        spec_trim_end_char(s.drop_last(), c)
    } else {
        s
    }
}

/// `s` with every leading `c` removed, as `str::trim_start_matches` with a `char` does.
pub open spec fn spec_trim_start_char(s: Seq<char>, c: char) -> Seq<char>
    decreases s.len(),
{
    if s.len() > 0 && s[0] == c {
        spec_trim_start_char(s.drop_first(), c)
    } else {
        s
    }
}

/// Whether two strings hold the same characters.
pub fn same_text(a: &str, b: &str) -> (res: bool)
    ensures
        res == (a@ == b@),
{
    let n = a.unicode_len();
    if n != b.unicode_len() {
        return false;
    }
    let mut i: usize = 0;
    while i < n
        invariant
            n == a@.len() == b@.len(),
            i <= n,
            forall|k: int| 0 <= k < i ==> a@[k] == b@[k],
        decreases n - i,
    {
        if a.get_char(i) != b.get_char(i) {
            return false;
        }
        i = i + 1;
    }
    assert(a@ =~= b@);
    true
}

/// Whether `p` occurs in `s` at character position `at`.
fn matches_at(s: &str, at: usize, p: &str) -> (res: bool)
    requires
        at <= s@.len(),
    ensures
        res == starts_with(s@.skip(at as int), p@),
{
    let n = s.unicode_len();
    let m = p.unicode_len();
    if m > n - at {
        return false;
    }
    let mut k: usize = 0;
    while k < m
        invariant
            n == s@.len(),
            m == p@.len(),
            at + m <= n,
            k <= m,
            forall|j: int| 0 <= j < k ==> s@[at + j] == p@[j],
        decreases m - k,
    {
        if s.get_char(at + k) != p.get_char(k) {
            assert(s@.skip(at as int).take(m as int)[k as int] != p@[k as int]);
            return false;
        }
        k = k + 1;
    }
    assert(s@.skip(at as int).take(m as int) =~= p@);
    true
}

/// Removes every leading copy of `p` from `s`.
pub fn trim_start_matches<'a>(s: &'a str, p: &str) -> (res: &'a str)
    ensures
        res@ == spec_trim_start_matches(s@, p@),
{
    let n = s.unicode_len();
    let m = p.unicode_len();
    if m == 0 {
        return s;
    }
    let mut i: usize = 0;
    assert(s@.skip(0) =~= s@);
    while i < n && matches_at(s, i, p)
        invariant
            n == s@.len(),
            m == p@.len(),
            m > 0,
            i <= n,
            spec_trim_start_matches(s@, p@) == spec_trim_start_matches(s@.skip(i as int), p@),
        decreases n - i,
    {
        assert(s@.skip(i as int).skip(m as int) =~= s@.skip(i + m));
        i = i + m;
    }
    if i == n {
        assert(s@.skip(i as int) =~= Seq::<char>::empty());
    }
    let res = s.substring_char(i, n);
    assert(res@ =~= s@.skip(i as int));
    res
}

/// Removes every leading `c` from `s`.
pub fn trim_start_char<'a>(s: &'a str, c: char) -> (res: &'a str)
    ensures
        res@ == spec_trim_start_char(s@, c),
{
    let n = s.unicode_len();
    let mut i: usize = 0;
    assert(s@.skip(0) =~= s@);
    while i < n && s.get_char(i) == c
        invariant
            n == s@.len(),
            i <= n,
            spec_trim_start_char(s@, c) == spec_trim_start_char(s@.skip(i as int), c),
        decreases n - i,
    {
        assert(s@.skip(i as int).drop_first() =~= s@.skip(i + 1));
        i = i + 1;
    }
    let res = s.substring_char(i, n);
    assert(res@ =~= s@.skip(i as int));
    res
}

/// Removes every trailing `c` from `s`.
pub fn trim_end_char<'a>(s: &'a str, c: char) -> (res: &'a str)
    ensures
        res@ == spec_trim_end_char(s@, c),
{
    let n = s.unicode_len();
    let mut j: usize = n;
    assert(s@.take(n as int) =~= s@);
    while j > 0 && s.get_char(j - 1) == c
        invariant
            n == s@.len(),
            j <= n,
            spec_trim_end_char(s@, c) == spec_trim_end_char(s@.take(j as int), c),
        decreases j,
    {
        assert(s@.take(j as int).drop_last() =~= s@.take(j - 1));
        j = j - 1;
    }
    let res = s.substring_char(0, j);
    assert(res@ =~= s@.take(j as int));
    res
}

/// Whether the last character of `s` is `c`.
pub fn ends_with_char(s: &str, c: char) -> (res: bool)
    ensures
        res == (s@.len() > 0 && s@.last() == c),
{
    let n = s.unicode_len();
    n > 0 && s.get_char(n - 1) == c
}

proof fn lemma_trim_start_char_split(s: Seq<char>, c: char) -> (k: int)
    ensures
        0 <= k <= s.len(),
        forall|j: int| 0 <= j < k ==> s[j] == c,
        spec_trim_start_char(s, c) == s.skip(k),
        k < s.len() ==> s[k] != c,
    decreases s.len(),
{
    if s.len() > 0 && s[0] == c {
        let k1 = lemma_trim_start_char_split(s.drop_first(), c);
        assert(s.drop_first().skip(k1) =~= s.skip(k1 + 1));
        assert forall|j: int| 0 <= j < k1 + 1 implies s[j] == c by {
            if j > 0 {
                assert(s[j] == s.drop_first()[j - 1]);
            }
        }
        k1 + 1
    } else {
        assert(s.skip(0) =~= s);
        0
    }
}

/// Trimming leading `c`s removes exactly the run of `c`s that starts the text: the text is
/// that run followed by the result, and the result does not start with `c`.
pub proof fn lemma_trim_start_char_removes_leading_run(s: Seq<char>, c: char)
    ensures
        exists|k: int|
            0 <= k <= s.len() && (forall|j: int| 0 <= j < k ==> s[j] == c)
                && spec_trim_start_char(s, c) == s.skip(k),
        !(spec_trim_start_char(s, c).len() > 0 && spec_trim_start_char(s, c)[0] == c),
{
    let k = lemma_trim_start_char_split(s, c);
    if k < s.len() {
        assert(spec_trim_start_char(s, c)[0] == s[k]);
    }
}

/// Trimming trailing `c`s removes exactly the run of `c`s that ends the text: the text is
/// the result followed by that run, and the result does not end with `c`.
pub proof fn lemma_trim_end_char_removes_trailing_run(s: Seq<char>, c: char)
    ensures
        exists|k: int|
            0 <= k <= s.len() && (forall|j: int| k <= j < s.len() ==> s[j] == c)
                && spec_trim_end_char(s, c) == s.take(k),
        !(spec_trim_end_char(s, c).len() > 0 && spec_trim_end_char(s, c).last() == c),
    decreases s.len(),
{
    if s.len() > 0 && s.last() == c {
        let t = s.drop_last();
        lemma_trim_end_char_removes_trailing_run(t, c);
        let k = choose|k: int|
            0 <= k <= t.len() && (forall|j: int| k <= j < t.len() ==> t[j] == c)
                && spec_trim_end_char(t, c) == t.take(k);
        assert(t.take(k) =~= s.take(k));
        assert forall|j: int| k <= j < s.len() implies s[j] == c by {
            if j < t.len() {
                assert(s[j] == t[j]);
            }
        }
    } else {
        assert(s.take(s.len() as int) =~= s);
    }
}

} // verus!

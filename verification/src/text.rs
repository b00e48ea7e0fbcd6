//! Text primitives over character sequences: whitespace trimming, substring
//! search and splitting into lines, each stated over `Seq<char>`.
use vstd::prelude::*;
use vstd::string::StringExecFns;

verus! {

/// `String::push` appends one character at the end of the string.
pub assume_specification[ String::push ](s: &mut String, ch: char)
    ensures
        final(s)@ == old(s)@.push(ch),
;

// ---------------------------------------------------------------------------
// Conversions

/// The characters of `s`, in order.
pub fn chars_of(s: &str) -> (v: Vec<char>)
    ensures
        v@ == s@,
{
    let mut v: Vec<char> = Vec::new();
    for c in it: s.chars()
        invariant
            v@ == it.seq().take(it.index() as int),
    {
        v.push(c);
    }
    v
}

/// A string holding the characters of `v`, in order.
pub fn string_of(v: &[char]) -> (s: String)
    ensures
        s@ == v@,
{
    let mut s = String::new();
    for i in 0..v.len()
        invariant
            s@ == v@.take(i as int),
    {
        s.push(v[i]);
        assert(v@.take(i as int).push(v@[i as int]) =~= v@.take(i + 1));
    }
    assert(v@.take(v@.len() as int) =~= v@);
    s
}

/// The string `a` followed by `b`.
pub fn concat(a: &str, b: &str) -> (s: String)
    ensures
        s@ == a@ + b@,
{
    let mut s = a.to_owned();
    s.append(b);
    s
}

/// The string `a`, then `b`, then `c`.
pub fn concat3(a: &str, b: &str, c: &str) -> (s: String)
    ensures
        s@ == a@ + b@ + c@,
{
    let mut s = a.to_owned();
    s.append(b);
    s.append(c);
    s
}

/// The views of a sequence of strings.
pub open spec fn string_views(v: Seq<String>) -> Seq<Seq<char>> {
    v.map_values(|l: String| l@)
}

// ---------------------------------------------------------------------------
// Whitespace and trimming

/// The characters with the Unicode `White_Space` property, which is what
/// `char::is_whitespace` tests.
pub open spec fn is_white_space(c: char) -> bool {
    let u = c as u32;
    ||| 0x09 <= u <= 0x0D
    ||| u == 0x20
    ||| u == 0x85
    ||| u == 0xA0
    ||| u == 0x1680
    ||| 0x2000 <= u <= 0x200A
    ||| u == 0x2028
    ||| u == 0x2029
    ||| u == 0x202F
    ||| u == 0x205F
    ||| u == 0x3000
}

/// Whether `c` is a whitespace character.
pub fn is_white_space_char(c: char) -> (b: bool)
    ensures
        b == is_white_space(c),
{
    let u = c as u32;
    (0x09 <= u && u <= 0x0D) || u == 0x20 || u == 0x85 || u == 0xA0 || u == 0x1680 || (0x2000
        <= u && u <= 0x200A) || u == 0x2028 || u == 0x2029 || u == 0x202F || u == 0x205F || u
        == 0x3000
}

/// `s` without its leading whitespace.
pub open spec fn trim_start(s: Seq<char>) -> Seq<char>
    decreases s.len(),
{
    if s.len() > 0 && is_white_space(s[0]) {
        trim_start(s.drop_first())
    } else {
        s
    }
}

/// `s` without its trailing whitespace.
pub open spec fn trim_end(s: Seq<char>) -> Seq<char>
    decreases s.len(),
{
    if s.len() > 0 && is_white_space(s.last()) {
        trim_end(s.drop_last())
    } else {
        s
    }
}

/// `s` without leading and trailing whitespace, as `str::trim` gives it.
pub open spec fn trim(s: Seq<char>) -> Seq<char> {
    trim_end(trim_start(s))
}

/// The characters of `s` without leading and trailing whitespace.
pub fn trim_chars(s: &[char]) -> (t: Vec<char>)
    ensures
        t@ == trim(s@),
{
    let n = s.len();
    let mut i: usize = 0;
    assert(s@.subrange(0, n as int) =~= s@);
    while i < n && is_white_space_char(s[i])
        invariant
            n == s@.len(),
            i <= n,
            trim_start(s@) == trim_start(s@.subrange(i as int, n as int)),
        decreases n - i,
    {
        assert(s@.subrange(i as int, n as int).drop_first() =~= s@.subrange(i + 1, n as int));
        i = i + 1;
    }
    assert(trim_start(s@) == s@.subrange(i as int, n as int));
    let mut j: usize = n;
    while j > i && is_white_space_char(s[j - 1])
        invariant
            n == s@.len(),
            i <= j <= n,
            trim(s@) == trim_end(s@.subrange(i as int, j as int)),
        decreases j,
    {
        assert(s@.subrange(i as int, j as int).drop_last() =~= s@.subrange(i as int, j - 1));
        j = j - 1;
    }
    let mut t: Vec<char> = Vec::new();
    let mut k: usize = i;
    while k < j
        invariant
            n == s@.len(),
            i <= k <= j <= n,
            t@ == s@.subrange(i as int, k as int),
        decreases j - k,
    {
        t.push(s[k]);
        assert(s@.subrange(i as int, k as int).push(s@[k as int]) =~= s@.subrange(
            i as int,
            k + 1,
        ));
        k = k + 1;
    }
    t
}

/// Trimming `s` leaves `s` unchanged when `s` has no whitespace at either end.
pub proof fn lemma_trim_of_trimmed_ends(s: Seq<char>)
    requires
        s.len() > 0 ==> !is_white_space(s[0]) && !is_white_space(s.last()),
    ensures
        trim(s) == s,
{
}

/// The first character of `trim_end(s)`, where there is one, is that of `s`.
proof fn lemma_trim_end_keeps_front(s: Seq<char>)
    ensures
        trim_end(s).len() <= s.len(),
        trim_end(s) == s.take(trim_end(s).len() as int),
        trim_end(s).len() > 0 ==> !is_white_space(trim_end(s).last()),
        forall|k: int| trim_end(s).len() <= k < s.len() ==> is_white_space(#[trigger] s[k]),
    decreases s.len(),
{
    if s.len() > 0 && is_white_space(s.last()) {
        lemma_trim_end_keeps_front(s.drop_last());
        assert forall|k: int| trim_end(s).len() <= k < s.len() implies is_white_space(
            #[trigger] s[k],
        ) by {
            if k < s.len() - 1 {
                assert(s.drop_last()[k] == s[k]);
            }
        }
        assert(s.drop_last().take(trim_end(s).len() as int) =~= s.take(trim_end(s).len() as int));
    } else {
        assert(s.take(s.len() as int) =~= s);
    }
}

/// `trim_start(s)` is a suffix of `s` that starts with a non-whitespace character.
proof fn lemma_trim_start_shape(s: Seq<char>)
    ensures
        trim_start(s).len() <= s.len(),
        trim_start(s) == s.skip(s.len() - trim_start(s).len()),
        trim_start(s).len() > 0 ==> !is_white_space(trim_start(s)[0]),
        forall|k: int| 0 <= k < s.len() - trim_start(s).len() ==> is_white_space(#[trigger] s[k]),
    decreases s.len(),
{
    if s.len() > 0 && is_white_space(s[0]) {
        lemma_trim_start_shape(s.drop_first());
        assert forall|k: int| 0 <= k < s.len() - trim_start(s).len() implies is_white_space(
            #[trigger] s[k],
        ) by {
            if k > 0 {
                assert(s.drop_first()[k - 1] == s[k]);
            }
        }
        assert(s.drop_first().skip(s.drop_first().len() - trim_start(s).len()) =~= s.skip(
            s.len() - trim_start(s).len(),
        ));
    } else {
        assert(s.skip(0) =~= s);
    }
}

/// Trimming is idempotent: a trimmed string trims to itself.
pub proof fn lemma_trim_idempotent(s: Seq<char>)
    ensures
        trim(trim(s)) == trim(s),
{
    let a = trim_start(s);
    lemma_trim_start_shape(s);
    lemma_trim_end_keeps_front(a);
    let t = trim_end(a);
    if t.len() > 0 {
        assert(t[0] == a[0]);
    }
    lemma_trim_of_trimmed_ends(t);
}

/// Where `trim(s)` lies within `s`: the trimmed text is the slice between
/// the bounds, it neither starts nor ends with whitespace, and everything
/// outside it is whitespace.
pub proof fn trim_bounds(s: Seq<char>) -> (r: (int, int))
    ensures
        0 <= r.0 <= r.1 <= s.len(),
        trim(s) == s.subrange(r.0, r.1),
        r.0 < r.1 ==> !is_white_space(s[r.0]) && !is_white_space(s[r.1 - 1]),
        forall|k: int| 0 <= k < r.0 ==> is_white_space(#[trigger] s[k]),
        forall|k: int| r.1 <= k < s.len() ==> is_white_space(#[trigger] s[k]),
{
    let a = trim_start(s);
    lemma_trim_start_shape(s);
    lemma_trim_end_keeps_front(a);
    let st = s.len() - a.len();
    let t = trim_end(a);
    assert(s.subrange(st, st + t.len()) =~= a.take(t.len() as int));
    assert forall|k: int| st + t.len() <= k < s.len() implies is_white_space(#[trigger] s[k]) by {
        assert(a[k - st] == s[k]);
    }
    if t.len() > 0 {
        assert(t[0] == a[0]);
        assert(t.last() == s[st + t.len() - 1]);
    }
    (st, st + t.len())
}

/// Trimming drops exactly the whitespace at both ends: whitespace put
/// around a string trims away.
pub proof fn law_trim_surrounding_whitespace(pre: Seq<char>, s: Seq<char>, post: Seq<char>)
    requires
        forall|k: int| 0 <= k < pre.len() ==> is_white_space(#[trigger] pre[k]),
        forall|k: int| 0 <= k < post.len() ==> is_white_space(#[trigger] post[k]),
    ensures
        trim(pre + s + post) == trim(s),
{
    let (a, b) = trim_bounds(s);
    let w = pre + s + post;
    let a2 = pre.len() + a;
    let b2 = pre.len() + b;
    if a < b {
        assert(w.subrange(a2, b2) =~= s.subrange(a, b));
    }
    let (c, d) = trim_bounds(w);
    // both (c, d) and (a2, b2) bound the non-whitespace core of `w`
    if a < b {
        assert(w[a2] == s[a]);
        assert(w[b2 - 1] == s[b - 1]);
        if c > a2 {
            assert(is_white_space(w[a2]));
        }
        if c < a2 {
            assert(!is_white_space(w[c]));
            if c < pre.len() {
                assert(w[c] == pre[c]);
            } else {
                assert(w[c] == s[c - pre.len()]);
            }
        }
        if d < b2 {
            assert(is_white_space(w[b2 - 1]));
        }
        if d > b2 {
            assert(!is_white_space(w[d - 1]));
            if d - 1 < pre.len() + s.len() {
                assert(w[d - 1] == s[d - 1 - pre.len()]);
            } else {
                assert(w[d - 1] == post[d - 1 - pre.len() - s.len()]);
            }
        }
        assert(trim(w) =~= trim(s));
    } else {
        if c < d {
            assert(!is_white_space(w[c]));
            if c < pre.len() {
                assert(w[c] == pre[c]);
            } else if c < pre.len() + s.len() {
                assert(w[c] == s[c - pre.len()]);
            } else {
                assert(w[c] == post[c - pre.len() - s.len()]);
            }
        }
        assert(trim(w) =~= trim(s));
    }
}

// ---------------------------------------------------------------------------
// Substrings

/// `needle` occurs in `hay` starting at index `i`.
pub open spec fn occurs_at(hay: Seq<char>, needle: Seq<char>, i: int) -> bool {
    &&& 0 <= i
    &&& i + needle.len() <= hay.len()
    &&& hay.subrange(i, i + needle.len()) == needle
}

/// `needle` occurs somewhere in `hay`, as `str::contains` tests.
pub open spec fn contains(hay: Seq<char>, needle: Seq<char>) -> bool {
    exists|i: int| #[trigger] occurs_at(hay, needle, i)
}

/// What occurs in a slice of `s` occurs in `s`.
pub proof fn lemma_contains_in_slice(s: Seq<char>, a: int, b: int, needle: Seq<char>)
    requires
        0 <= a <= b <= s.len(),
        contains(s.subrange(a, b), needle),
    ensures
        contains(s, needle),
{
    let i = choose|i: int| #[trigger] occurs_at(s.subrange(a, b), needle, i);
    assert(s.subrange(a + i, a + i + needle.len()) =~= s.subrange(a, b).subrange(
        i,
        i + needle.len(),
    ));
    assert(occurs_at(s, needle, a + i));
}

/// A text occurs in any string built around it, and never in a shorter one.
pub proof fn law_contains_occurrence(pre: Seq<char>, needle: Seq<char>, post: Seq<char>, hay: Seq<
    char,
>)
    ensures
        contains(pre + needle + post, needle),
        needle.len() > hay.len() ==> !contains(hay, needle),
{
    let w = pre + needle + post;
    assert(w.subrange(pre.len() as int, pre.len() + needle.len() as int) =~= needle);
    assert(occurs_at(w, needle, pre.len() as int));
}

/// Whether `needle` occurs in `hay` starting at index `i`.
fn matches_at(hay: &[char], needle: &[char], i: usize) -> (b: bool)
    requires
        i + needle@.len() <= hay@.len(),
    ensures
        b == occurs_at(hay@, needle@, i as int),
{
    let m = needle.len();
    let hl = hay.len();
    let mut k: usize = 0;
    while k < m
        invariant
            m == needle@.len(),
            hl == hay@.len(),
            i + m <= hay@.len(),
            k <= m,
            forall|x: int| 0 <= x < k ==> hay@[i + x] == needle@[x],
        decreases m - k,
    {
        if hay[i + k] != needle[k] {
            assert(hay@.subrange(i as int, i + m)[k as int] != needle@[k as int]);
            return false;
        }
        k = k + 1;
    }
    assert(hay@.subrange(i as int, i + m) =~= needle@);
    true
}

/// Whether `needle` occurs in `hay`.
pub fn contains_chars(hay: &[char], needle: &[char]) -> (b: bool)
    ensures
        b == contains(hay@, needle@),
{
    let n = hay.len();
    let m = needle.len();
    if m > n {
        assert forall|i: int| !#[trigger] occurs_at(hay@, needle@, i) by {}
        return false;
    }
    let last = n - m;
    let mut i: usize = 0;
    loop
        invariant
            n == hay@.len(),
            m == needle@.len(),
            last == n - m,
            i <= last,
            forall|x: int| 0 <= x < i ==> !#[trigger] occurs_at(hay@, needle@, x),
        decreases last - i,
    {
        if matches_at(hay, needle, i) {
            assert(occurs_at(hay@, needle@, i as int));
            return true;
        }
        if i == last {
            assert forall|x: int| !#[trigger] occurs_at(hay@, needle@, x) by {
                if 0 <= x < i {
                }
            }
            return false;
        }
        i = i + 1;
    }
}

/// Whether `needle` (a literal) occurs in `hay`.
pub fn contains_str(hay: &[char], needle: &str) -> (b: bool)
    ensures
        b == contains(hay@, needle@),
{
    let nv = chars_of(needle);
    contains_chars(hay, &nv)
}

/// Whether `a` and `b` hold the same characters.
pub fn same_chars(a: &[char], b: &[char]) -> (r: bool)
    ensures
        r == (a@ == b@),
{
    if a.len() != b.len() {
        return false;
    }
    let mut k: usize = 0;
    while k < a.len()
        invariant
            a@.len() == b@.len(),
            k <= a@.len(),
            forall|x: int| 0 <= x < k ==> a@[x] == b@[x],
        decreases a@.len() - k,
    {
        if a[k] != b[k] {
            return false;
        }
        k = k + 1;
    }
    assert(a@ =~= b@);
    true
}

/// Whether `a` holds exactly the characters of the literal `b`.
pub fn equals_str(a: &[char], b: &str) -> (r: bool)
    ensures
        r == (a@ == b@),
{
    let bv = chars_of(b);
    same_chars(a, &bv)
}

// ---------------------------------------------------------------------------
// Lines

/// The index of the first `'\n'` in `s`, or `s.len()` where there is none.
pub open spec fn newline_index(s: Seq<char>) -> nat
    decreases s.len(),
{
    if s.len() == 0 {
        0
    } else if s[0] == '\n' {
        0
    } else {
        1 + newline_index(s.drop_first())
    }
}

/// `l` without one trailing carriage return.
pub open spec fn strip_cr(l: Seq<char>) -> Seq<char> {
    if l.len() > 0 && l.last() == '\r' {
        l.drop_last()
    } else {
        l
    }
}

/// The lines of `s`, as `str::lines` gives them: `s` split at each `'\n'`,
/// a `'\r'` just before a `'\n'` dropped with it, and no empty line after a
/// final `'\n'`.
pub open spec fn lines(s: Seq<char>) -> Seq<Seq<char>>
    decreases s.len(),
{
    if s.len() == 0 {
        seq![]
    } else {
        let k = newline_index(s);
        if k < s.len() {
            seq![strip_cr(s.take(k as int))] + lines(s.skip(k + 1 as int))
        } else {
            seq![s]
        }
    }
}

proof fn lemma_newline_index(s: Seq<char>, j: int)
    requires
        0 <= j <= s.len(),
        forall|k: int| 0 <= k < j ==> s[k] != '\n',
        j == s.len() || s[j] == '\n',
    ensures
        newline_index(s) == j,
    decreases j,
{
    if j > 0 {
        lemma_newline_index(s.drop_first(), j - 1);
    }
}

/// Splitting at the first newline: a first line without `'\n'`, then a
/// newline, gives that line (less one trailing `'\r'`) followed by the
/// lines of the rest; a last line without newline is kept whole.
pub proof fn law_lines_split(first: Seq<char>, rest: Seq<char>)
    requires
        forall|k: int| 0 <= k < first.len() ==> first[k] != '\n',
    ensures
        lines(first + seq!['\n'] + rest) == seq![strip_cr(first)] + lines(rest),
        first.len() > 0 ==> lines(first) == seq![first],
{
    let s = first + seq!['\n'] + rest;
    lemma_newline_index(s, first.len() as int);
    assert(s.take(first.len() as int) =~= first);
    assert(s.skip(first.len() + 1 as int) =~= rest);
    if first.len() > 0 {
        lemma_newline_index(first, first.len() as int);
    }
}

/// The views of a sequence of character vectors.
pub open spec fn views(v: Seq<Vec<char>>) -> Seq<Seq<char>> {
    v.map_values(|l: Vec<char>| l@)
}

/// `l` without one trailing carriage return.
fn strip_cr_chars(s: &[char], from: usize, to: usize) -> (l: Vec<char>)
    requires
        from <= to <= s@.len(),
    ensures
        l@ == strip_cr(s@.subrange(from as int, to as int)),
{
    let mut end = to;
    if to > from && s[to - 1] == '\r' {
        end = to - 1;
    }
    let mut l: Vec<char> = Vec::new();
    let mut k = from;
    while k < end
        invariant
            from <= k <= end <= to <= s@.len(),
            l@ == s@.subrange(from as int, k as int),
        decreases end - k,
    {
        l.push(s[k]);
        assert(s@.subrange(from as int, k as int).push(s@[k as int]) =~= s@.subrange(
            from as int,
            k + 1,
        ));
        k = k + 1;
    }
    if to > from {
        assert(s@.subrange(from as int, to as int).drop_last() =~= s@.subrange(
            from as int,
            to - 1,
        ));
    }
    l
}

/// The lines of `s`.
pub fn lines_of(s: &[char]) -> (out: Vec<Vec<char>>)
    ensures
        views(out@) == lines(s@),
{
    let n = s.len();
    let mut out: Vec<Vec<char>> = Vec::new();
    let mut st: usize = 0;
    let mut i: usize = 0;
    assert(s@.skip(0) =~= s@);
    while i < n
        invariant
            n == s@.len(),
            st <= i <= n,
            forall|k: int| st <= k < i ==> s@[k] != '\n',
            views(out@) + lines(s@.skip(st as int)) == lines(s@),
        decreases n - i,
    {
        if s[i] == '\n' {
            let ghost rest = s@.skip(st as int);
            proof {
                lemma_newline_index(rest, i - st);
                assert(rest.take(i - st) =~= s@.subrange(st as int, i as int));
                assert(rest.skip(i - st + 1) =~= s@.skip(i + 1));
            }
            let line = strip_cr_chars(s, st, i);
            let ghost before = views(out@);
            out.push(line);
            assert(views(out@) =~= before.push(line@));
            assert(views(out@) + lines(s@.skip(i + 1)) =~= before + lines(rest));
            st = i + 1;
        }
        i = i + 1;
    }
    if st < n {
        let ghost rest = s@.skip(st as int);
        proof {
            lemma_newline_index(rest, n - st);
        }
        let mut line: Vec<char> = Vec::new();
        let mut k = st;
        while k < n
            invariant
                st <= k <= n,
                n == s@.len(),
                line@ == s@.subrange(st as int, k as int),
            decreases n - k,
        {
            line.push(s[k]);
            assert(s@.subrange(st as int, k as int).push(s@[k as int]) =~= s@.subrange(
                st as int,
                k + 1,
            ));
            k = k + 1;
        }
        assert(line@ =~= rest);
        let ghost before = views(out@);
        out.push(line);
        assert(views(out@) =~= before.push(line@));
        assert(views(out@) =~= before + lines(rest));
    } else {
        assert(s@.skip(st as int) =~= Seq::<char>::empty());
        assert(views(out@) + lines(s@.skip(st as int)) =~= views(out@));
    }
    out
}

} // verus!

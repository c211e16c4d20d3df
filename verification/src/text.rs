//! Text handling on character sequences.
//!
//! Every parser of the library works on `Vec<char>` copies of its input and
//! states its result over `Seq<char>`. The spec functions here describe what
//! the corresponding `str` operations of Rust compute (`trim`, `split`,
//! `lines`, `starts_with`, ...), and the executable functions implement them.
use vstd::prelude::*;
use vstd::std_specs::iter::IteratorSpec;

verus! {

/// `char::is_whitespace`: the Unicode `White_Space` property.
pub open spec fn is_ws(c: char) -> bool {
    ||| ('\u{9}' <= c && c <= '\u{d}')
    ||| c == ' '
    ||| c == '\u{85}'
    ||| c == '\u{a0}'
    ||| c == '\u{1680}'
    ||| ('\u{2000}' <= c && c <= '\u{200a}')
    ||| c == '\u{2028}'
    ||| c == '\u{2029}'
    ||| c == '\u{202f}'
    ||| c == '\u{205f}'
    ||| c == '\u{3000}'
}

pub fn is_whitespace(c: char) -> (r: bool)
    ensures
        r == is_ws(c),
{
    ('\u{9}' <= c && c <= '\u{d}') || c == ' ' || c == '\u{85}' || c == '\u{a0}' || c
        == '\u{1680}' || ('\u{2000}' <= c && c <= '\u{200a}') || c == '\u{2028}' || c
        == '\u{2029}' || c == '\u{202f}' || c == '\u{205f}' || c == '\u{3000}'
}

/// `char::is_ascii_whitespace`.
pub open spec fn is_ascii_ws(c: char) -> bool {
    c == ' ' || c == '\t' || c == '\n' || c == '\u{c}' || c == '\r'
}

/// The characters of a string slice, in order.
pub fn to_chars(s: &str) -> (v: Vec<char>)
    ensures
        v@ == s@,
{
    broadcast use vstd::string::group_string_axioms;

    let mut v: Vec<char> = Vec::new();
    let mut chars = s.chars();
    loop
        invariant
            v@ + chars.remaining() == s@,
            chars.decrease() is Some,
        ensures
            v@ == s@,
        decreases chars.decrease()->0,
    {
        match chars.next() {
            Some(c) => {
                v.push(c);
            },
            None => {
                assert(v@ =~= s@);
                break ;
            },
        }
    }
    v
}

/// Appends one character to a string (`String::push`).
#[verifier::external_body]
pub(crate) fn push_char(s: &mut String, c: char)
    ensures
        final(s)@ == old(s)@.push(c),
{
    s.push(c);
}

/// A string holding exactly the given characters.
pub fn from_chars(v: &[char]) -> (s: String)
    ensures
        s@ == v@,
{
    let mut s = String::new();
    let mut i: usize = 0;
    while i < v.len()
        invariant
            i <= v.len(),
            s@ == v@.take(i as int),
        decreases v.len() - i,
    {
        push_char(&mut s, v[i]);
        assert(v@.take(i + 1) =~= v@.take(i as int).push(v@[i as int]));
        i = i + 1;
    }
    assert(v@.take(v.len() as int) =~= v@);
    s
}

/// An owned copy of a string slice.
pub fn owned(s: &str) -> (r: String)
    ensures
        r@ == s@,
{
    String::from_str(s)
}

/// Concatenation of two strings.
pub fn concat(a: &str, b: &str) -> (r: String)
    ensures
        r@ == a@ + b@,
{
    let mut r = String::from_str(a);
    r.append(b);
    r
}

/// Concatenation of three strings.
pub fn concat3(a: &str, b: &str, c: &str) -> (r: String)
    ensures
        r@ == a@ + b@ + c@,
{
    let mut r = String::from_str(a);
    r.append(b);
    r.append(c);
    r
}

/// Element-wise equality of two character slices.
pub fn chars_eq(a: &[char], b: &[char]) -> (r: bool)
    ensures
        r == (a@ == b@),
{
    if a.len() != b.len() {
        return false;
    }
    let mut i: usize = 0;
    while i < a.len()
        invariant
            i <= a.len(),
            a.len() == b.len(),
            forall|j: int| 0 <= j < i ==> a@[j] == b@[j],
        decreases a.len() - i,
    {
        if a[i] != b[i] {
            return false;
        }
        i = i + 1;
    }
    assert(a@ =~= b@);
    true
}

/// Equality of two string slices.
pub fn str_eq(a: &str, b: &str) -> (r: bool)
    ensures
        r == (a@ == b@),
{
    let va = to_chars(a);
    let vb = to_chars(b);
    chars_eq(va.as_slice(), vb.as_slice())
}

// ---------------------------------------------------------------------------
// Prefixes, suffixes, search
// ---------------------------------------------------------------------------

pub open spec fn has_prefix(s: Seq<char>, p: Seq<char>) -> bool {
    p.len() <= s.len() && s.take(p.len() as int) == p
}

pub open spec fn has_suffix(s: Seq<char>, p: Seq<char>) -> bool {
    p.len() <= s.len() && s.skip(s.len() - p.len()) == p
}

/// `needle` occurs in `s` starting at index `i`.
pub open spec fn occurs_at(s: Seq<char>, needle: Seq<char>, i: int) -> bool {
    0 <= i && i + needle.len() <= s.len() && s.subrange(i, i + needle.len()) == needle
}

pub open spec fn contains_seq(s: Seq<char>, needle: Seq<char>) -> bool {
    exists|i: int| occurs_at(s, needle, i)
}

/// The index of the first occurrence of `needle` in `s` (`str::find`).
pub open spec fn find_seq(s: Seq<char>, needle: Seq<char>) -> Option<int> {
    if contains_seq(s, needle) {
        Some(
            choose|i: int|
                occurs_at(s, needle, i) && forall|j: int| 0 <= j < i ==> !occurs_at(s, needle, j),
        )
    } else {
        None
    }
}

/// The index of the first occurrence of `c` in `s`.
pub open spec fn find_char_spec(s: Seq<char>, c: char) -> Option<int> {
    if s.contains(c) {
        Some(choose|i: int| 0 <= i < s.len() && s[i] == c && forall|j: int| 0 <= j < i ==> s[j] != c)
    } else {
        None
    }
}

/// The index of the last occurrence of `c` in `s` (`str::rfind`).
pub open spec fn rfind_char_spec(s: Seq<char>, c: char) -> Option<int> {
    if s.contains(c) {
        Some(
            choose|i: int|
                0 <= i < s.len() && s[i] == c && forall|j: int| i < j < s.len() ==> s[j] != c,
        )
    } else {
        None
    }
}

pub fn starts_with(s: &[char], p: &[char]) -> (r: bool)
    ensures
        r == has_prefix(s@, p@),
{
    if p.len() > s.len() {
        return false;
    }
    let mut i: usize = 0;
    while i < p.len()
        invariant
            i <= p.len() <= s.len(),
            forall|j: int| 0 <= j < i ==> s@[j] == p@[j],
        decreases p.len() - i,
    {
        if s[i] != p[i] {
            assert(s@.take(p.len() as int)[i as int] != p@[i as int]);
            return false;
        }
        i = i + 1;
    }
    assert(s@.take(p.len() as int) =~= p@);
    true
}

pub fn ends_with(s: &[char], p: &[char]) -> (r: bool)
    ensures
        r == has_suffix(s@, p@),
{
    if p.len() > s.len() {
        return false;
    }
    let off = s.len() - p.len();
    let mut i: usize = 0;
    while i < p.len()
        invariant
            i <= p.len() <= s.len(),
            off == s.len() - p.len(),
            forall|j: int| 0 <= j < i ==> s@[off + j] == p@[j],
        decreases p.len() - i,
    {
        if s[off + i] != p[i] {
            assert(s@.skip(off as int)[i as int] != p@[i as int]);
            return false;
        }
        i = i + 1;
    }
    assert(s@.skip(off as int) =~= p@);
    true
}

/// Whether `needle` occurs in `s` at index `i`.
pub fn matches_at(s: &[char], needle: &[char], i: usize) -> (r: bool)
    ensures
        r == occurs_at(s@, needle@, i as int),
{
    if i > s.len() || needle.len() > s.len() - i {
        return false;
    }
    let mut k: usize = 0;
    while k < needle.len()
        invariant
            k <= needle.len(),
            i + needle.len() <= s.len(),
            forall|j: int| 0 <= j < k ==> s@[i + j] == needle@[j],
        decreases needle.len() - k,
    {
        if s[i + k] != needle[k] {
            assert(s@.subrange(i as int, i + needle.len())[k as int] != needle@[k as int]);
            return false;
        }
        k = k + 1;
    }
    assert(s@.subrange(i as int, i + needle.len()) =~= needle@);
    true
}

/// The index of the first occurrence of `needle` in `s`.
pub fn find(s: &[char], needle: &[char]) -> (r: Option<usize>)
    ensures
        match r {
            Some(i) => find_seq(s@, needle@) == Some(i as int) && occurs_at(s@, needle@, i as int),
            None => find_seq(s@, needle@) is None,
        },
{
    let mut i: usize = 0;
    loop
        invariant
            i <= s.len(),
            forall|j: int| 0 <= j < i ==> !occurs_at(s@, needle@, j),
        ensures
            forall|j: int| 0 <= j <= s.len() ==> !occurs_at(s@, needle@, j),
        decreases s.len() - i,
    {
        if matches_at(s, needle, i) {
            proof {
                let k = choose|k: int|
                    occurs_at(s@, needle@, k) && forall|j: int|
                        0 <= j < k ==> !occurs_at(s@, needle@, j);
                assert(k == i as int);
            }
            return Some(i);
        }
        if i == s.len() {
            break ;
        }
        i = i + 1;
    }
    None
}

pub fn contains(s: &[char], needle: &[char]) -> (r: bool)
    ensures
        r == contains_seq(s@, needle@),
{
    let f = find(s, needle);
    f.is_some()
}

/// The index of the first occurrence of `c` in `s`.
pub fn find_char(s: &[char], c: char) -> (r: Option<usize>)
    ensures
        match r {
            Some(i) => find_char_spec(s@, c) == Some(i as int) && i < s.len(),
            None => find_char_spec(s@, c) is None,
        },
{
    let mut i: usize = 0;
    while i < s.len()
        invariant
            i <= s.len(),
            forall|j: int| 0 <= j < i ==> s@[j] != c,
        decreases s.len() - i,
    {
        if s[i] == c {
            proof {
                assert(s@.contains(c));
                let k = choose|k: int|
                    0 <= k < s@.len() && s@[k] == c && forall|j: int| 0 <= j < k ==> s@[j] != c;
                assert(k == i as int);
            }
            return Some(i);
        }
        i = i + 1;
    }
    None
}

/// The index of the last occurrence of `c` in `s`.
pub fn rfind_char(s: &[char], c: char) -> (r: Option<usize>)
    ensures
        match r {
            Some(i) => rfind_char_spec(s@, c) == Some(i as int) && i < s.len(),
            None => rfind_char_spec(s@, c) is None,
        },
{
    let mut i: usize = s.len();
    while i > 0
        invariant
            i <= s.len(),
            forall|j: int| i <= j < s.len() ==> s@[j] != c,
        decreases i,
    {
        if s[i - 1] == c {
            proof {
                assert(s@.contains(c));
                let k = choose|k: int|
                    0 <= k < s@.len() && s@[k] == c && forall|j: int| k < j < s@.len() ==> s@[j] != c;
                assert(k == i - 1);
            }
            return Some(i - 1);
        }
        i = i - 1;
    }
    None
}

/// A copy of `s[from..to]`.
pub fn slice_to_vec(s: &[char], from: usize, to: usize) -> (r: Vec<char>)
    requires
        from <= to <= s.len(),
    ensures
        r@ == s@.subrange(from as int, to as int),
{
    let mut r: Vec<char> = Vec::new();
    let mut i: usize = from;
    while i < to
        invariant
            from <= i <= to <= s.len(),
            r@ == s@.subrange(from as int, i as int),
        decreases to - i,
    {
        r.push(s[i]);
        assert(s@.subrange(from as int, i + 1) =~= s@.subrange(from as int, i as int).push(
            s@[i as int],
        ));
        i = i + 1;
    }
    r
}

/// A string holding `s[from..to]`.
pub fn substring(s: &[char], from: usize, to: usize) -> (r: String)
    requires
        from <= to <= s.len(),
    ensures
        r@ == s@.subrange(from as int, to as int),
{
    let v = slice_to_vec(s, from, to);
    from_chars(v.as_slice())
}

// ---------------------------------------------------------------------------
// Trimming
// ---------------------------------------------------------------------------

/// `str::trim_start`.
pub open spec fn trim_start_spec(s: Seq<char>) -> Seq<char>
    decreases s.len(),
{
    if s.len() > 0 && is_ws(s[0]) {
        trim_start_spec(s.drop_first())
    } else {
        s
    }
}

/// `str::trim_end`.
pub open spec fn trim_end_spec(s: Seq<char>) -> Seq<char>
    decreases s.len(),
{
    if s.len() > 0 && is_ws(s.last()) {
        trim_end_spec(s.drop_last())
    } else {
        s
    }
}

/// `str::trim`.
pub open spec fn trim_spec(s: Seq<char>) -> Seq<char> {
    trim_end_spec(trim_start_spec(s))
}

proof fn lemma_trim_start_skip(s: Seq<char>, i: int)
    requires
        0 <= i <= s.len(),
        forall|j: int| 0 <= j < i ==> is_ws(s[j]),
        i == s.len() || !is_ws(s[i]),
    ensures
        trim_start_spec(s) == s.skip(i),
    decreases i,
{
    if i == 0 {
        assert(s.skip(0) =~= s);
    } else {
        lemma_trim_start_skip(s.drop_first(), i - 1);
        assert(s.drop_first().skip(i - 1) =~= s.skip(i));
    }
}

proof fn lemma_trim_end_take(s: Seq<char>, i: int)
    requires
        0 <= i <= s.len(),
        forall|j: int| i <= j < s.len() ==> is_ws(s[j]),
        i == 0 || !is_ws(s[i - 1]),
    ensures
        trim_end_spec(s) == s.take(i),
    decreases s.len() - i,
{
    if i == s.len() {
        assert(s.take(i) =~= s);
    } else {
        lemma_trim_end_take(s.drop_last(), i);
        assert(s.drop_last().take(i) =~= s.take(i));
    }
}

/// The bounds of the trimmed part of `s`.
pub fn trim_bounds(s: &[char]) -> (r: (usize, usize))
    ensures
        r.0 <= r.1 <= s.len(),
        trim_spec(s@) == s@.subrange(r.0 as int, r.1 as int),
        trim_start_spec(s@) == s@.skip(r.0 as int),
{
    let mut i: usize = 0;
    while i < s.len() && is_whitespace(s[i])
        invariant
            i <= s.len(),
            forall|j: int| 0 <= j < i ==> is_ws(s@[j]),
        decreases s.len() - i,
    {
        i = i + 1;
    }
    let mut e: usize = s.len();
    while e > i && is_whitespace(s[e - 1])
        invariant
            i <= e <= s.len(),
            forall|j: int| e <= j < s.len() ==> is_ws(s@[j]),
        decreases e,
    {
        e = e - 1;
    }
    proof {
        lemma_trim_start_skip(s@, i as int);
        let t = s@.skip(i as int);
        lemma_trim_end_take(t, e - i);
        assert(t.take(e - i) =~= s@.subrange(i as int, e as int));
    }
    (i, e)
}

/// `str::trim` on characters.
pub fn trim(s: &[char]) -> (r: Vec<char>)
    ensures
        r@ == trim_spec(s@),
{
    let (a, b) = trim_bounds(s);
    slice_to_vec(s, a, b)
}

/// `str::trim_start` on characters.
pub fn trim_start(s: &[char]) -> (r: Vec<char>)
    ensures
        r@ == trim_start_spec(s@),
{
    let (a, _b) = trim_bounds(s);
    slice_to_vec(s, a, s.len())
}

/// `str::trim` on a string slice.
pub fn trim_str(s: &str) -> (r: String)
    ensures
        r@ == trim_spec(s@),
{
    let v = to_chars(s);
    let t = trim(v.as_slice());
    from_chars(t.as_slice())
}

// ---------------------------------------------------------------------------
// Splitting
// ---------------------------------------------------------------------------

/// What separates the pieces of a split.
pub enum Sep {
    /// One given character (`str::split(char)`).
    Char(char),
    /// Any Unicode whitespace character (`char::is_whitespace`).
    Whitespace,
    /// Any ASCII whitespace character (`char::is_ascii_whitespace`).
    AsciiWhitespace,
}

pub open spec fn is_sep(sep: Sep, c: char) -> bool {
    match sep {
        Sep::Char(d) => c == d,
        Sep::Whitespace => is_ws(c),
        Sep::AsciiWhitespace => is_ascii_ws(c),
    }
}

pub fn sep_matches(sep: &Sep, c: char) -> (r: bool)
    ensures
        r == is_sep(*sep, c),
{
    match sep {
        Sep::Char(d) => c == *d,
        Sep::Whitespace => is_whitespace(c),
        Sep::AsciiWhitespace => c == ' ' || c == '\t' || c == '\n' || c == '\u{c}' || c == '\r',
    }
}

/// The contents of a sequence of character vectors.
pub open spec fn views(v: Seq<Vec<char>>) -> Seq<Seq<char>> {
    v.map_values(|x: Vec<char>| x@)
}

/// All pieces of `s` between separators, empty ones included (`str::split`).
pub open spec fn split_spec(s: Seq<char>, sep: Sep) -> Seq<Seq<char>>
    decreases s.len(),
{
    if s.len() == 0 {
        seq![Seq::<char>::empty()]
    } else {
        let r = split_spec(s.drop_last(), sep);
        if is_sep(sep, s.last()) {
            r.push(Seq::<char>::empty())
        } else {
            r.update(r.len() - 1, r.last().push(s.last()))
        }
    }
}

pub proof fn lemma_split_len(s: Seq<char>, sep: Sep)
    ensures
        split_spec(s, sep).len() >= 1,
    decreases s.len(),
{
    if s.len() > 0 {
        lemma_split_len(s.drop_last(), sep);
    }
}

/// The non-empty pieces of `s` between separators (`str::split_whitespace`
/// for the whitespace separators).
pub open spec fn fields_spec(s: Seq<char>, sep: Sep) -> Seq<Seq<char>> {
    split_spec(s, sep).filter(|p: Seq<char>| p.len() > 0)
}

/// Splits `s` at every separator.
pub fn split(s: &[char], sep: &Sep) -> (r: Vec<Vec<char>>)
    ensures
        views(r@) == split_spec(s@, *sep),
{
    let mut parts: Vec<Vec<char>> = Vec::new();
    let mut cur: Vec<char> = Vec::new();
    let mut i: usize = 0;
    assert(s@.take(0) =~= Seq::<char>::empty());
    while i < s.len()
        invariant
            i <= s.len(),
            views(parts@).push(cur@) == split_spec(s@.take(i as int), *sep),
        decreases s.len() - i,
    {
        let c = s[i];
        proof {
            lemma_split_len(s@.take(i as int), *sep);
            assert(s@.take(i + 1).drop_last() =~= s@.take(i as int));
        }
        if sep_matches(sep, c) {
            let ghost before = views(parts@);
            let ghost cur_before = cur@;
            parts.push(cur);
            cur = Vec::new();
            assert(views(parts@) =~= before.push(cur_before));
        } else {
            let ghost before = split_spec(s@.take(i as int), *sep);
            cur.push(c);
            assert(views(parts@).push(cur@) =~= before.update(
                before.len() - 1,
                before.last().push(c),
            ));
        }
        i = i + 1;
    }
    let ghost before = views(parts@);
    let ghost cur_before = cur@;
    parts.push(cur);
    assert(views(parts@) =~= before.push(cur_before));
    assert(s@.take(s.len() as int) =~= s@);
    parts
}

/// The non-empty pieces of `s`.
pub fn fields(s: &[char], sep: &Sep) -> (r: Vec<Vec<char>>)
    ensures
        views(r@) == fields_spec(s@, *sep),
{
    let parts = split(s, sep);
    let ghost all = views(parts@);
    let mut out: Vec<Vec<char>> = Vec::new();
    let mut i: usize = 0;
    while i < parts.len()
        invariant
            i <= parts.len(),
            all == views(parts@),
            views(out@) == all.take(i as int).filter(|p: Seq<char>| p.len() > 0),
        decreases parts.len() - i,
    {
        proof {
            all.take(i as int).lemma_filter_push(all[i as int], |p: Seq<char>| p.len() > 0);
            assert(all.take(i + 1) =~= all.take(i as int).push(all[i as int]));
        }
        if parts[i].len() > 0 {
            let p = slice_to_vec(parts[i].as_slice(), 0, parts[i].len());
            assert(p@ =~= all[i as int]);
            let ghost before = views(out@);
            out.push(p);
            assert(views(out@) =~= before.push(all[i as int]));
        }
        i = i + 1;
    }
    assert(all.take(parts.len() as int) =~= all);
    out
}

/// `s` without one trailing carriage return.
pub open spec fn strip_cr(p: Seq<char>) -> Seq<char> {
    if p.len() > 0 && p.last() == '\r' {
        p.drop_last()
    } else {
        p
    }
}

/// `str::lines`: the pieces between line feeds; a carriage return before a
/// line feed is dropped, and a final empty piece is not a line.
pub open spec fn lines_spec(s: Seq<char>) -> Seq<Seq<char>> {
    let parts = split_spec(s, Sep::Char('\n'));
    let body = parts.drop_last().map_values(|p: Seq<char>| strip_cr(p));
    if parts.last().len() == 0 {
        body
    } else {
        body.push(parts.last())
    }
}

/// The lines of `s`.
pub fn lines(s: &[char]) -> (r: Vec<Vec<char>>)
    ensures
        views(r@) == lines_spec(s@),
{
    let parts = split(s, &Sep::Char('\n'));
    let ghost all = views(parts@);
    proof {
        lemma_split_len(s@, Sep::Char('\n'));
    }
    let n = parts.len();
    let mut out: Vec<Vec<char>> = Vec::new();
    let mut i: usize = 0;
    while i + 1 < n
        invariant
            n == parts.len() >= 1,
            i < n,
            all == views(parts@),
            views(out@) == all.take(i as int).map_values(|p: Seq<char>| strip_cr(p)),
        decreases n - i,
    {
        let p = &parts[i];
        let len = p.len();
        let line = if len > 0 && p[len - 1] == '\r' {
            slice_to_vec(p.as_slice(), 0, len - 1)
        } else {
            slice_to_vec(p.as_slice(), 0, len)
        };
        proof {
            assert(p@ == all[i as int]);
            if len > 0 && p@[len - 1] == '\r' {
                assert(line@ =~= all[i as int].drop_last());
            } else {
                assert(line@ =~= all[i as int]);
            }
        }
        let ghost before = views(out@);
        out.push(line);
        assert(views(out@) =~= before.push(line@));
        assert(all.take(i + 1).map_values(|p: Seq<char>| strip_cr(p)) =~= all.take(
            i as int,
        ).map_values(|p: Seq<char>| strip_cr(p)).push(strip_cr(all[i as int])));
        i = i + 1;
    }
    assert(all.take(i as int) =~= all.drop_last());
    let last = &parts[n - 1];
    if last.len() > 0 {
        let l = slice_to_vec(last.as_slice(), 0, last.len());
        assert(l@ =~= all.last());
        let ghost before = views(out@);
        out.push(l);
        assert(views(out@) =~= before.push(l@));
    }
    out
}

/// The part of `s` before and after the first `c` (`str::split_once`).
pub open spec fn split_once_spec(s: Seq<char>, c: char) -> Option<(Seq<char>, Seq<char>)> {
    match find_char_spec(s, c) {
        Some(i) => Some((s.take(i), s.skip(i + 1))),
        None => None,
    }
}

pub fn split_once(s: &[char], c: char) -> (r: Option<(Vec<char>, Vec<char>)>)
    ensures
        match r {
            Some((a, b)) => split_once_spec(s@, c) == Some((a@, b@)),
            None => split_once_spec(s@, c) is None,
        },
{
    match find_char(s, c) {
        Some(i) => {
            let a = slice_to_vec(s, 0, i);
            let b = slice_to_vec(s, i + 1, s.len());
            assert(a@ =~= s@.take(i as int));
            assert(b@ =~= s@.skip(i + 1));
            Some((a, b))
        },
        None => None,
    }
}

/// The first index of `s` holding a separator.
pub open spec fn first_sep(s: Seq<char>, sep: Sep) -> Option<int> {
    if exists|i: int| 0 <= i < s.len() && is_sep(sep, s[i]) {
        Some(
            choose|i: int|
                0 <= i < s.len() && is_sep(sep, s[i]) && forall|j: int|
                    0 <= j < i ==> !is_sep(sep, s[j]),
        )
    } else {
        None
    }
}

/// `str::splitn(2, ..)` where both pieces are present: the part before the
/// first separator, and everything after it.
pub open spec fn split_first_spec(s: Seq<char>, sep: Sep) -> Option<(Seq<char>, Seq<char>)> {
    match first_sep(s, sep) {
        Some(i) => Some((s.take(i), s.skip(i + 1))),
        None => None,
    }
}

pub fn split_first(s: &[char], sep: &Sep) -> (r: Option<(Vec<char>, Vec<char>)>)
    ensures
        match r {
            Some((a, b)) => split_first_spec(s@, *sep) == Some((a@, b@)),
            None => split_first_spec(s@, *sep) is None,
        },
{
    let mut i: usize = 0;
    while i < s.len()
        invariant
            i <= s.len(),
            forall|j: int| 0 <= j < i ==> !is_sep(*sep, s@[j]),
        decreases s.len() - i,
    {
        if sep_matches(sep, s[i]) {
            proof {
                let k = choose|k: int|
                    0 <= k < s@.len() && is_sep(*sep, s@[k]) && forall|j: int|
                        0 <= j < k ==> !is_sep(*sep, s@[j]);
                assert(k == i as int);
            }
            let a = slice_to_vec(s, 0, i);
            let b = slice_to_vec(s, i + 1, s.len());
            assert(a@ =~= s@.take(i as int));
            assert(b@ =~= s@.skip(i + 1));
            return Some((a, b));
        }
        i = i + 1;
    }
    None
}

// ---------------------------------------------------------------------------
// Case and numbers
// ---------------------------------------------------------------------------

/// What `str::to_lowercase` returns for a string: Unicode lowercase mapping.
pub uninterp spec fn unicode_lowercase(s: Seq<char>) -> Seq<char>;

/// What `str::to_uppercase` returns for a string: Unicode uppercase mapping.
pub uninterp spec fn unicode_uppercase(s: Seq<char>) -> Seq<char>;

/// `str::to_lowercase` of std; its result is the Unicode lowercase mapping,
/// named by `unicode_lowercase`.
#[verifier::external_body]
pub(crate) fn to_lowercase(s: &str) -> (r: String)
    ensures
        r@ == unicode_lowercase(s@),
{
    s.to_lowercase()
}

/// `str::to_uppercase` of std; its result is the Unicode uppercase mapping,
/// named by `unicode_uppercase`.
#[verifier::external_body]
pub(crate) fn to_uppercase(s: &str) -> (r: String)
    ensures
        r@ == unicode_uppercase(s@),
{
    s.to_uppercase()
}

/// `char::to_ascii_lowercase`.
pub open spec fn ascii_lower(c: char) -> char {
    if 'A' <= c && c <= 'Z' {
        ((c as u32) + 32) as char
    } else {
        c
    }
}

/// `str::to_ascii_lowercase`.
pub open spec fn ascii_lower_spec(s: Seq<char>) -> Seq<char> {
    s.map_values(|c: char| ascii_lower(c))
}

pub fn ascii_lower_char(c: char) -> (r: char)
    ensures
        r == ascii_lower(c),
{
    if 'A' <= c && c <= 'Z' {
        let u = (c as u32) + 32;
        assert(0x61 <= u <= 0x7a);
        char_from_ascii(u as u8)
    } else {
        c
    }
}

/// The character with the given ASCII code.
pub fn char_from_ascii(b: u8) -> (c: char)
    requires
        b < 128,
    ensures
        c == (b as u32) as char,
        c as u32 == b as u32,
{
    b as char
}

pub fn to_ascii_lowercase(s: &[char]) -> (r: Vec<char>)
    ensures
        r@ == ascii_lower_spec(s@),
{
    let mut r: Vec<char> = Vec::new();
    let mut i: usize = 0;
    while i < s.len()
        invariant
            i <= s.len(),
            r@ == s@.take(i as int).map_values(|c: char| ascii_lower(c)),
        decreases s.len() - i,
    {
        r.push(ascii_lower_char(s[i]));
        assert(s@.take(i + 1).map_values(|c: char| ascii_lower(c)) =~= s@.take(
            i as int,
        ).map_values(|c: char| ascii_lower(c)).push(ascii_lower(s@[i as int])));
        i = i + 1;
    }
    assert(s@.take(s.len() as int) =~= s@);
    r
}

/// `str::eq_ignore_ascii_case`.
pub open spec fn eq_ignore_ascii_case_spec(a: Seq<char>, b: Seq<char>) -> bool {
    ascii_lower_spec(a) == ascii_lower_spec(b)
}

pub fn eq_ignore_ascii_case(a: &[char], b: &[char]) -> (r: bool)
    ensures
        r == eq_ignore_ascii_case_spec(a@, b@),
{
    let la = to_ascii_lowercase(a);
    let lb = to_ascii_lowercase(b);
    chars_eq(la.as_slice(), lb.as_slice())
}

/// The decimal digit character for `d < 10`.
pub open spec fn digit_char(d: nat) -> char {
    (48 + d) as char
}

/// The decimal notation of a natural number, as `Display` writes it.
pub open spec fn decimal(n: nat) -> Seq<char>
    decreases n,
{
    if n < 10 {
        seq![digit_char(n)]
    } else {
        decimal(n / 10).push(digit_char(n % 10))
    }
}

/// The first `k` elements of `v`, last one first.
pub open spec fn reversed_prefix(v: Seq<char>, k: int) -> Seq<char> {
    Seq::new(k as nat, |j: int| v[k - 1 - j])
}

/// The decimal notation of `n`.
pub fn u64_to_string(n: u64) -> (r: String)
    ensures
        r@ == decimal(n as nat),
{
    let mut m: u64 = n;
    let mut rev: Vec<char> = Vec::new();
    while m >= 10
        invariant
            decimal(n as nat) == decimal(m as nat) + reversed_prefix(rev@, rev@.len() as int),
        decreases m,
    {
        let d = (m % 10) as u8;
        let c = char_from_ascii(48 + d);
        proof {
            assert(decimal(m as nat) == decimal((m / 10) as nat).push(digit_char((m % 10) as nat)));
            assert(reversed_prefix(rev@.push(c), rev@.len() + 1int) =~= seq![c] + reversed_prefix(
                rev@,
                rev@.len() as int,
            ));
        }
        rev.push(c);
        m = m / 10;
    }
    let mut r = String::new();
    push_char(&mut r, char_from_ascii(48 + m as u8));
    let mut k: usize = rev.len();
    while k > 0
        invariant
            k <= rev.len(),
            decimal(n as nat) == r@ + reversed_prefix(rev@, k as int),
        decreases k,
    {
        let c = rev[k - 1];
        proof {
            assert(reversed_prefix(rev@, k as int) =~= seq![c] + reversed_prefix(rev@, k - 1));
            assert(r@ + reversed_prefix(rev@, k as int) =~= r@.push(c) + reversed_prefix(
                rev@,
                k - 1,
            ));
        }
        push_char(&mut r, c);
        k = k - 1;
    }
    assert(reversed_prefix(rev@, 0) =~= Seq::<char>::empty());
    assert(r@ + Seq::<char>::empty() =~= r@);
    r
}

/// `str::replace(from, to)` for a single character `from`: every
/// occurrence of `from` replaced by `to`.
pub open spec fn replace_char_spec(s: Seq<char>, from: char, to: Seq<char>) -> Seq<char>
    decreases s.len(),
{
    if s.len() == 0 {
        Seq::empty()
    } else {
        replace_char_spec(s.drop_last(), from, to) + if s.last() == from {
            to
        } else {
            seq![s.last()]
        }
    }
}

pub fn replace_char(s: &str, from: char, to: &str) -> (r: String)
    ensures
        r@ == replace_char_spec(s@, from, to@),
{
    let cs = to_chars(s);
    let mut r = String::new();
    let mut i: usize = 0;
    while i < cs.len()
        invariant
            i <= cs.len(),
            cs@ == s@,
            r@ == replace_char_spec(cs@.take(i as int), from, to@),
        decreases cs.len() - i,
    {
        proof {
            assert(cs@.take(i + 1).drop_last() =~= cs@.take(i as int));
        }
        if cs[i] == from {
            r.append(to);
        } else {
            push_char(&mut r, cs[i]);
            assert(r@ =~= replace_char_spec(cs@.take(i as int), from, to@) + seq![cs@[i as int]]);
        }
        i = i + 1;
    }
    assert(cs@.take(cs.len() as int) =~= cs@);
    r
}

/// `str::contains` on string slices.
pub fn str_contains(s: &str, needle: &str) -> (r: bool)
    ensures
        r == contains_seq(s@, needle@),
{
    let a = to_chars(s);
    let b = to_chars(needle);
    contains(a.as_slice(), b.as_slice())
}

/// `s` padded with spaces on the right to at least `width` characters, as
/// `format!("{:width$}", s)` writes it.
pub open spec fn pad_right_spec(s: Seq<char>, width: nat) -> Seq<char> {
    if s.len() >= width {
        s
    } else {
        s + Seq::new((width - s.len()) as nat, |i: int| ' ')
    }
}

pub fn pad_right(s: &str, width: usize) -> (r: String)
    ensures
        r@ == pad_right_spec(s@, width as nat),
{
    let cs = to_chars(s);
    let mut r = String::from_str(s);
    let mut n: usize = cs.len();
    while n < width
        invariant
            cs@ == s@,
            cs.len() <= n <= width || (n == cs.len() && n >= width),
            r@ == s@ + Seq::new((n - cs.len()) as nat, |i: int| ' '),
        decreases width - n,
    {
        push_char(&mut r, ' ');
        assert(r@ =~= s@ + Seq::new((n + 1 - cs.len()) as nat, |i: int| ' '));
        n = n + 1;
    }
    assert(cs.len() >= width ==> r@ =~= s@);
    r
}

/// Lexicographic order of character sequences by code point, which is the
/// order of `String`'s `Ord` (UTF-8 keeps code point order).
pub open spec fn lex_lt(a: Seq<char>, b: Seq<char>) -> bool
    decreases a.len(),
{
    if a.len() == 0 {
        b.len() > 0
    } else if b.len() == 0 {
        false
    } else if a[0] != b[0] {
        (a[0] as u32) < (b[0] as u32)
    } else {
        lex_lt(a.drop_first(), b.drop_first())
    }
}

pub proof fn lemma_lex_irreflexive(a: Seq<char>)
    ensures
        !lex_lt(a, a),
    decreases a.len(),
{
    if a.len() > 0 {
        lemma_lex_irreflexive(a.drop_first());
    }
}

pub proof fn lemma_lex_total(a: Seq<char>, b: Seq<char>)
    ensures
        lex_lt(a, b) || a == b || lex_lt(b, a),
    decreases a.len(),
{
    if a.len() == 0 {
        if b.len() == 0 {
            assert(a =~= b);
        }
    } else if b.len() > 0 {
        if a[0] == b[0] {
            lemma_lex_total(a.drop_first(), b.drop_first());
            if a.drop_first() == b.drop_first() {
                assert(a =~= seq![a[0]] + a.drop_first());
                assert(b =~= seq![b[0]] + b.drop_first());
            }
        } else {
            vstd::utf8::char_u32_cast(a[0], a[0] as u32);
            vstd::utf8::char_u32_cast(b[0], b[0] as u32);
        }
    }
}

pub proof fn lemma_lex_asymmetric(a: Seq<char>, b: Seq<char>)
    ensures
        lex_lt(a, b) ==> !lex_lt(b, a),
    decreases a.len(),
{
    if a.len() > 0 && b.len() > 0 && a[0] == b[0] {
        lemma_lex_asymmetric(a.drop_first(), b.drop_first());
    }
}

pub proof fn lemma_lex_transitive(a: Seq<char>, b: Seq<char>, c: Seq<char>)
    ensures
        lex_lt(a, b) && lex_lt(b, c) ==> lex_lt(a, c),
    decreases a.len(),
{
    if a.len() > 0 && b.len() > 0 && c.len() > 0 && a[0] == b[0] && b[0] == c[0] {
        lemma_lex_transitive(a.drop_first(), b.drop_first(), c.drop_first());
    }
}

/// Whether `a` comes strictly before `b` in lexicographic order.
pub fn lex_less(a: &[char], b: &[char]) -> (r: bool)
    ensures
        r == lex_lt(a@, b@),
{
    let mut i: usize = 0;
    assert(a@.skip(0) =~= a@);
    assert(b@.skip(0) =~= b@);
    while i < a.len() && i < b.len() && a[i] == b[i]
        invariant
            i <= a.len(),
            i <= b.len(),
            forall|j: int| 0 <= j < i ==> a@[j] == b@[j],
            lex_lt(a@, b@) == lex_lt(a@.skip(i as int), b@.skip(i as int)),
        decreases a.len() - i,
    {
        proof {
            let sa = a@.skip(i as int);
            let sb = b@.skip(i as int);
            assert(sa.drop_first() =~= a@.skip(i + 1));
            assert(sb.drop_first() =~= b@.skip(i + 1));
        }
        i = i + 1;
    }
    if i == a.len() {
        i < b.len()
    } else if i == b.len() {
        false
    } else {
        let x: u32 = a[i] as u32;
        let y: u32 = b[i] as u32;
        proof {
            assert(a@.skip(i as int)[0] == a@[i as int]);
            assert(b@.skip(i as int)[0] == b@[i as int]);
        }
        x < y
    }
}

// ---------------------------------------------------------------------------
// Trimming by pattern
// ---------------------------------------------------------------------------

/// `s` without its leading characters that belong to `set`
/// (`trim_start_matches` with a character class).
pub open spec fn trim_start_any_spec(s: Seq<char>, set: Seq<char>) -> Seq<char>
    decreases s.len(),
{
    if s.len() > 0 && set.contains(s[0]) {
        trim_start_any_spec(s.drop_first(), set)
    } else {
        s
    }
}

/// `s` without its trailing characters that belong to `set`.
pub open spec fn trim_end_any_spec(s: Seq<char>, set: Seq<char>) -> Seq<char>
    decreases s.len(),
{
    if s.len() > 0 && set.contains(s.last()) {
        trim_end_any_spec(s.drop_last(), set)
    } else {
        s
    }
}

/// `s` without the characters of `set` at either end (`trim_matches`).
pub open spec fn trim_any_spec(s: Seq<char>, set: Seq<char>) -> Seq<char> {
    trim_end_any_spec(trim_start_any_spec(s, set), set)
}

fn in_set(set: &[char], c: char) -> (r: bool)
    ensures
        r == set@.contains(c),
{
    let mut i: usize = 0;
    while i < set.len()
        invariant
            i <= set.len(),
            forall|j: int| 0 <= j < i ==> set@[j] != c,
        decreases set.len() - i,
    {
        if set[i] == c {
            return true;
        }
        i = i + 1;
    }
    false
}

proof fn lemma_trim_start_any_skip(s: Seq<char>, set: Seq<char>, i: int)
    requires
        0 <= i <= s.len(),
        forall|j: int| 0 <= j < i ==> set.contains(#[trigger] s[j]),
        i == s.len() || !set.contains(s[i]),
    ensures
        trim_start_any_spec(s, set) == s.skip(i),
    decreases i,
{
    if i == 0 {
        assert(s.skip(0) =~= s);
    } else {
        assert forall|j: int| 0 <= j < i - 1 implies set.contains(#[trigger] s.drop_first()[j]) by {
            assert(s.drop_first()[j] == s[j + 1]);
        }
        lemma_trim_start_any_skip(s.drop_first(), set, i - 1);
        assert(s.drop_first().skip(i - 1) =~= s.skip(i));
    }
}

proof fn lemma_trim_end_any_take(s: Seq<char>, set: Seq<char>, k: int)
    requires
        0 <= k <= s.len(),
        forall|j: int| k <= j < s.len() ==> set.contains(#[trigger] s[j]),
        k == 0 || !set.contains(s[k - 1]),
    ensures
        trim_end_any_spec(s, set) == s.take(k),
    decreases s.len() - k,
{
    if k == s.len() {
        assert(s.take(k) =~= s);
    } else {
        assert forall|j: int| k <= j < s.drop_last().len() implies set.contains(#[trigger] s.drop_last()[j]) by {
            assert(s.drop_last()[j] == s[j]);
        }
        lemma_trim_end_any_take(s.drop_last(), set, k);
        assert(s.drop_last().take(k) =~= s.take(k));
    }
}

/// `s` without the leading characters that belong to `set`.
pub fn trim_start_any(s: &[char], set: &[char]) -> (r: Vec<char>)
    ensures
        r@ == trim_start_any_spec(s@, set@),
{
    let mut i: usize = 0;
    while i < s.len() && in_set(set, s[i])
        invariant
            i <= s.len(),
            forall|j: int| 0 <= j < i ==> set@.contains(#[trigger] s@[j]),
        decreases s.len() - i,
    {
        i = i + 1;
    }
    proof {
        lemma_trim_start_any_skip(s@, set@, i as int);
    }
    let r = slice_to_vec(s, i, s.len());
    assert(r@ =~= s@.skip(i as int));
    r
}

/// `s` without the trailing characters that belong to `set`.
pub fn trim_end_any(s: &[char], set: &[char]) -> (r: Vec<char>)
    ensures
        r@ == trim_end_any_spec(s@, set@),
{
    let mut k: usize = s.len();
    while k > 0 && in_set(set, s[k - 1])
        invariant
            k <= s.len(),
            forall|j: int| k <= j < s.len() ==> set@.contains(#[trigger] s@[j]),
        decreases k,
    {
        k = k - 1;
    }
    proof {
        lemma_trim_end_any_take(s@, set@, k as int);
    }
    let r = slice_to_vec(s, 0, k);
    assert(r@ =~= s@.take(k as int));
    r
}

/// `s` without the characters of `set` at either end.
pub fn trim_any(s: &[char], set: &[char]) -> (r: Vec<char>)
    ensures
        r@ == trim_any_spec(s@, set@),
{
    let a = trim_start_any(s, set);
    trim_end_any(a.as_slice(), set)
}

/// `s` without every repetition of `suffix` at its end
/// (`trim_end_matches` with a string).
pub open spec fn trim_end_str_spec(s: Seq<char>, suffix: Seq<char>) -> Seq<char>
    decreases s.len(),
{
    if suffix.len() > 0 && has_suffix(s, suffix) {
        trim_end_str_spec(s.take(s.len() - suffix.len()), suffix)
    } else {
        s
    }
}

/// `s` without every repetition of `suffix` at its end.
pub fn trim_end_str(s: &[char], suffix: &[char]) -> (r: Vec<char>)
    ensures
        r@ == trim_end_str_spec(s@, suffix@),
{
    let mut cur = slice_to_vec(s, 0, s.len());
    assert(cur@ =~= s@);
    if suffix.len() == 0 {
        return cur;
    }
    while ends_with(cur.as_slice(), suffix)
        invariant
            suffix.len() > 0,
            trim_end_str_spec(cur@, suffix@) == trim_end_str_spec(s@, suffix@),
        decreases cur.len(),
    {
        let n = cur.len() - suffix.len();
        let next = slice_to_vec(cur.as_slice(), 0, n);
        assert(next@ =~= cur@.take(cur@.len() - suffix@.len()));
        cur = next;
    }
    cur
}

} // verus!

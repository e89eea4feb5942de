//! Character-level text helpers with their specifications.
//!
//! Strings are handled as sequences of `char`s: the specifications speak of
//! `Seq<char>` and the executable helpers work on `Vec<char>`.
use vstd::prelude::*;

verus! {

pub assume_specification[ std::string::String::push ](s: &mut std::string::String, ch: char)
    ensures
        final(s)@ == old(s)@.push(ch),
;

// ---------------------------------------------------------------------------
// Character classes
// ---------------------------------------------------------------------------

/// Unicode `White_Space` code points (what `char::is_whitespace` accepts).
pub open spec fn is_unicode_whitespace(c: char) -> bool {
    let u = c as u32;
    ||| 0x9 <= u <= 0xD
    ||| u == 0x20
    ||| u == 0x85
    ||| u == 0xA0
    ||| u == 0x1680
    ||| 0x2000 <= u <= 0x200A
    ||| u == 0x2028
    ||| u == 0x2029
    ||| u == 0x202F
    ||| u == 0x205F
    ||| u == 0x3000
}

pub open spec fn is_ascii_digit(c: char) -> bool {
    '0' <= c <= '9'
}

pub open spec fn is_ascii_upper(c: char) -> bool {
    'A' <= c <= 'Z'
}

pub open spec fn is_ascii_lower(c: char) -> bool {
    'a' <= c <= 'z'
}

pub open spec fn is_ascii_alnum(c: char) -> bool {
    is_ascii_digit(c) || is_ascii_upper(c) || is_ascii_lower(c)
}

pub open spec fn is_ascii_hex(c: char) -> bool {
    is_ascii_digit(c) || ('a' <= c <= 'f') || ('A' <= c <= 'F')
}

/// ASCII lower-casing of one character; every other character is kept.
pub open spec fn ascii_lower(c: char) -> char {
    if is_ascii_upper(c) {
        ((c as u32) + 32) as char
    } else {
        c
    }
}

pub fn char_is_whitespace(c: char) -> (b: bool)
    ensures
        b == is_unicode_whitespace(c),
{
    let u = c as u32;
    (0x9 <= u && u <= 0xD) || u == 0x20 || u == 0x85 || u == 0xA0 || u == 0x1680 || (0x2000 <= u
        && u <= 0x200A) || u == 0x2028 || u == 0x2029 || u == 0x202F || u == 0x205F || u == 0x3000
}

pub fn char_is_ascii_alnum(c: char) -> (b: bool)
    ensures
        b == is_ascii_alnum(c),
{
    ('0' <= c && c <= '9') || ('A' <= c && c <= 'Z') || ('a' <= c && c <= 'z')
}

pub fn char_is_ascii_hex(c: char) -> (b: bool)
    ensures
        b == is_ascii_hex(c),
{
    ('0' <= c && c <= '9') || ('a' <= c && c <= 'f') || ('A' <= c && c <= 'F')
}

pub fn char_ascii_lower(c: char) -> (r: char)
    ensures
        r == ascii_lower(c),
{
    if 'A' <= c && c <= 'Z' {
        let u = (c as u32) + 32;
        assert(u == 0x61 || u == 0x62 || (0x61 <= u <= 0x7a));
        ascii_char(u)
    } else {
        c
    }
}

/// The character with the given ASCII code.
pub fn ascii_char(u: u32) -> (c: char)
    requires
        u < 128,
    ensures
        c == u as char,
{
    (u as u8) as char
}

/// A class of separator characters.
#[derive(Clone, Copy, PartialEq, Eq, Debug)]
pub enum CharClass {
    /// Unicode white space.
    Whitespace,
    /// Exactly this character.
    Exactly(char),
    /// Either of two characters.
    EitherOf(char, char),
}

pub open spec fn in_class(k: CharClass, c: char) -> bool {
    match k {
        CharClass::Whitespace => is_unicode_whitespace(c),
        CharClass::Exactly(x) => c == x,
        CharClass::EitherOf(x, y) => c == x || c == y,
    }
}

pub fn class_has(k: CharClass, c: char) -> (b: bool)
    ensures
        b == in_class(k, c),
{
    match k {
        CharClass::Whitespace => char_is_whitespace(c),
        CharClass::Exactly(x) => c == x,
        CharClass::EitherOf(x, y) => c == x || c == y,
    }
}

/// A per-character rewriting rule.
#[derive(Clone, Copy, PartialEq, Eq, Debug)]
pub enum CharMap {
    /// Keep ASCII letters, digits, `_` and `-`; replace anything else with the given character.
    KeepIdentifierElse(char),
    /// Lower-case ASCII letters and keep digits; replace anything else with `-`.
    LowerAlnumElseDash,
    /// Lower-case ASCII letters, keep digits and `_`; replace anything else with `_`.
    LowerWordElseUnderscore,
    /// Replace `' '` and `':'` with `_`.
    SpaceColonToUnderscore,
}

pub open spec fn map_char(m: CharMap, c: char) -> char {
    match m {
        CharMap::KeepIdentifierElse(r) => if is_ascii_alnum(c) || c == '_' || c == '-' {
            c
        } else {
            r
        },
        CharMap::LowerAlnumElseDash => if is_ascii_alnum(c) {
            ascii_lower(c)
        } else {
            '-'
        },
        CharMap::LowerWordElseUnderscore => if is_ascii_alnum(c) || c == '_' {
            ascii_lower(c)
        } else {
            '_'
        },
        CharMap::SpaceColonToUnderscore => if c == ' ' || c == ':' {
            '_'
        } else {
            c
        },
    }
}

pub fn map_one(m: CharMap, c: char) -> (r: char)
    ensures
        r == map_char(m, c),
{
    match m {
        CharMap::KeepIdentifierElse(r) => if char_is_ascii_alnum(c) || c == '_' || c == '-' {
            c
        } else {
            r
        },
        CharMap::LowerAlnumElseDash => if char_is_ascii_alnum(c) {
            char_ascii_lower(c)
        } else {
            '-'
        },
        CharMap::LowerWordElseUnderscore => if char_is_ascii_alnum(c) || c == '_' {
            char_ascii_lower(c)
        } else {
            '_'
        },
        CharMap::SpaceColonToUnderscore => if c == ' ' || c == ':' {
            '_'
        } else {
            c
        },
    }
}

pub open spec fn map_seq(m: CharMap, s: Seq<char>) -> Seq<char> {
    s.map_values(|c: char| map_char(m, c))
}

pub open spec fn lower_seq(s: Seq<char>) -> Seq<char> {
    s.map_values(|c: char| ascii_lower(c))
}

// ---------------------------------------------------------------------------
// Sequence-level specifications
// ---------------------------------------------------------------------------

pub open spec fn trim_start_class(s: Seq<char>, k: CharClass) -> Seq<char>
    decreases s.len(),
{
    if s.len() > 0 && in_class(k, s[0]) {
        trim_start_class(s.drop_first(), k)
    } else {
        s
    }
}

pub open spec fn trim_end_class(s: Seq<char>, k: CharClass) -> Seq<char>
    decreases s.len(),
{
    if s.len() > 0 && in_class(k, s.last()) {
        trim_end_class(s.drop_last(), k)
    } else {
        s
    }
}

/// `s` without the characters of class `k` at either end.
pub open spec fn trim_class(s: Seq<char>, k: CharClass) -> Seq<char> {
    trim_end_class(trim_start_class(s, k), k)
}

/// `s` without white space at either end (what `str::trim` gives).
pub open spec fn trim_ws(s: Seq<char>) -> Seq<char> {
    trim_class(s, CharClass::Whitespace)
}

/// The pieces of `s` between separator characters, empty pieces included
/// (what `str::split` gives).
pub open spec fn split_class(s: Seq<char>, k: CharClass) -> Seq<Seq<char>>
    decreases s.len(),
{
    if s.len() == 0 {
        seq![Seq::<char>::empty()]
    } else {
        let r = split_class(s.drop_last(), k);
        if in_class(k, s.last()) {
            r.push(Seq::<char>::empty())
        } else {
            r.update(r.len() - 1, r.last().push(s.last()))
        }
    }
}

/// The non-empty parts, in order.
pub open spec fn nonempty_parts(parts: Seq<Seq<char>>) -> Seq<Seq<char>>
    decreases parts.len(),
{
    if parts.len() == 0 {
        Seq::<Seq<char>>::empty()
    } else {
        let r = nonempty_parts(parts.drop_last());
        if parts.last().len() > 0 {
            r.push(parts.last())
        } else {
            r
        }
    }
}

/// The parts joined with `sep` between consecutive parts.
pub open spec fn join_with(parts: Seq<Seq<char>>, sep: Seq<char>) -> Seq<char>
    decreases parts.len(),
{
    if parts.len() == 0 {
        Seq::<char>::empty()
    } else if parts.len() == 1 {
        parts[0]
    } else {
        join_with(parts.drop_last(), sep) + sep + parts.last()
    }
}

/// The non-empty pieces of `s` between characters of class `k`.
pub open spec fn words(s: Seq<char>, k: CharClass) -> Seq<Seq<char>> {
    nonempty_parts(split_class(s, k))
}

/// Runs of separators collapsed into one `sep`, with none at either end.
pub open spec fn collapse(s: Seq<char>, k: CharClass, sep: char) -> Seq<char> {
    join_with(words(s, k), seq![sep])
}

pub open spec fn occurs_at(s: Seq<char>, p: Seq<char>, i: int) -> bool {
    0 <= i && i + p.len() <= s.len() && s.subrange(i, i + p.len()) == p
}

/// `p` occurs in `s` (what `str::contains` gives for a string pattern).
#[verifier::opaque]
pub open spec fn contains_seq(s: Seq<char>, p: Seq<char>) -> bool {
    exists|i: int| occurs_at(s, p, i)
}

pub open spec fn starts_with_seq(s: Seq<char>, p: Seq<char>) -> bool {
    p.len() <= s.len() && s.subrange(0, p.len() as int) == p
}

pub open spec fn ends_with_char(s: Seq<char>, c: char) -> bool {
    s.len() > 0 && s.last() == c
}

/// The first `n` characters of `s` (all of them when `s` is shorter).
pub open spec fn take_at_most(s: Seq<char>, n: int) -> Seq<char> {
    if s.len() <= n {
        s
    } else {
        s.take(n)
    }
}

/// The characters of `s` that satisfy the hex-digit test, in order.
pub open spec fn hex_digits_of(s: Seq<char>) -> Seq<char>
    decreases s.len(),
{
    if s.len() == 0 {
        Seq::<char>::empty()
    } else if is_ascii_hex(s.last()) {
        hex_digits_of(s.drop_last()).push(s.last())
    } else {
        hex_digits_of(s.drop_last())
    }
}

/// Length in bytes of the UTF-8 encoding (what `str::len` gives).
pub open spec fn utf8_len(s: Seq<char>) -> nat {
    vstd::utf8::encode_utf8(s).len()
}

// ---------------------------------------------------------------------------
// Lemmas
// ---------------------------------------------------------------------------

pub proof fn lemma_take_push(s: Seq<char>, i: int)
    requires
        0 <= i < s.len(),
    ensures
        s.take(i + 1) == s.take(i).push(s[i]),
        s.take(i + 1).drop_last() == s.take(i),
        s.take(i + 1).last() == s[i],
{
    assert(s.take(i + 1) =~= s.take(i).push(s[i]));
}

pub proof fn lemma_take_push_parts(s: Seq<Seq<char>>, i: int)
    requires
        0 <= i < s.len(),
    ensures
        s.take(i + 1) == s.take(i).push(s[i]),
        s.take(i + 1).drop_last() == s.take(i),
        s.take(i + 1).last() == s[i],
{
    assert(s.take(i + 1) =~= s.take(i).push(s[i]));
}

pub proof fn lemma_char_vec_deep(v: Vec<char>)
    ensures
        v.deep_view() == v@,
{
    assert(v.deep_view() =~= v@);
}

pub proof fn lemma_split_nonempty(s: Seq<char>, k: CharClass)
    ensures
        split_class(s, k).len() >= 1,
    decreases s.len(),
{
    if s.len() > 0 {
        lemma_split_nonempty(s.drop_last(), k);
    }
}

proof fn lemma_trim_start_skip(s: Seq<char>, k: CharClass, i: int)
    requires
        0 <= i <= s.len(),
        forall|m: int| 0 <= m < i ==> in_class(k, #[trigger] s[m]),
    ensures
        trim_start_class(s, k) == trim_start_class(s.subrange(i, s.len() as int), k),
    decreases i,
{
    if i == 0 {
        assert(s.subrange(0, s.len() as int) =~= s);
    } else {
        let t = s.drop_first();
        assert forall|m: int| 0 <= m < i - 1 implies in_class(k, #[trigger] t[m]) by {
            assert(t[m] == s[m + 1]);
        }
        lemma_trim_start_skip(t, k, i - 1);
        assert(t.subrange(i - 1, t.len() as int) =~= s.subrange(i, s.len() as int));
    }
}

proof fn lemma_trim_end_skip(s: Seq<char>, k: CharClass, j: int)
    requires
        0 <= j <= s.len(),
        forall|m: int| j <= m < s.len() ==> in_class(k, #[trigger] s[m]),
    ensures
        trim_end_class(s, k) == trim_end_class(s.subrange(0, j), k),
    decreases s.len() - j,
{
    if j == s.len() {
        assert(s.subrange(0, j) =~= s);
    } else {
        let t = s.drop_last();
        assert forall|m: int| j <= m < t.len() implies in_class(k, #[trigger] t[m]) by {
            assert(t[m] == s[m]);
        }
        lemma_trim_end_skip(t, k, j);
        assert(t.subrange(0, j) =~= s.subrange(0, j));
    }
}

// ---------------------------------------------------------------------------
// Executable helpers
// ---------------------------------------------------------------------------

/// The characters of `s`, in order.
pub fn chars_of(s: &str) -> (v: Vec<char>)
    ensures
        v@ == s@,
{
    let mut v: Vec<char> = Vec::new();
    for c in it: s.chars()
        invariant
            v@ == it.seq().take(it.index() as int),
    {
        v.push(c);
    }
    v
}

/// A `String` holding exactly the characters of `v`.
pub fn string_of(v: &Vec<char>) -> (s: String)
    ensures
        s@ == v@,
{
    let mut s = String::new();
    let mut i: usize = 0;
    while i < v.len()
        invariant
            i <= v.len(),
            s@ == v@.take(i as int),
        decreases v.len() - i,
    {
        s.push(v[i]);
        proof {
            lemma_take_push(v@, i as int);
        }
        i = i + 1;
    }
    assert(v@.take(v.len() as int) =~= v@);
    s
}

/// Characters `from..to` of `v`.
pub fn slice_chars(v: &Vec<char>, from: usize, to: usize) -> (r: Vec<char>)
    requires
        from <= to <= v.len(),
    ensures
        r@ == v@.subrange(from as int, to as int),
{
    let mut r: Vec<char> = Vec::new();
    let mut i = from;
    while i < to
        invariant
            from <= i <= to <= v.len(),
            r@ == v@.subrange(from as int, i as int),
        decreases to - i,
    {
        r.push(v[i]);
        assert(v@.subrange(from as int, i + 1) =~= v@.subrange(from as int, i as int).push(
            v@[i as int],
        ));
        i = i + 1;
    }
    r
}

/// `a` followed by `b`.
pub fn concat_chars(a: &Vec<char>, b: &Vec<char>) -> (r: Vec<char>)
    ensures
        r@ == a@ + b@,
{
    let mut r = a.clone();
    assert(r@ == a@);
    let mut i: usize = 0;
    while i < b.len()
        invariant
            i <= b.len(),
            r@ == a@ + b@.take(i as int),
        decreases b.len() - i,
    {
        r.push(b[i]);
        proof {
            lemma_take_push(b@, i as int);
        }
        assert((a@ + b@.take(i as int)).push(b@[i as int]) =~= a@ + b@.take(i + 1));
        i = i + 1;
    }
    assert(b@.take(b.len() as int) =~= b@);
    r
}

/// Appends the characters of `s` to `r`.
pub fn push_str(r: &mut Vec<char>, s: &str)
    ensures
        final(r)@ == old(r)@ + s@,
{
    let t = chars_of(s);
    let mut i: usize = 0;
    while i < t.len()
        invariant
            i <= t.len(),
            t@ == s@,
            r@ == old(r)@ + t@.take(i as int),
        decreases t.len() - i,
    {
        r.push(t[i]);
        proof {
            lemma_take_push(t@, i as int);
        }
        assert((old(r)@ + t@.take(i as int)).push(t@[i as int]) =~= old(r)@ + t@.take(i + 1));
        i = i + 1;
    }
    assert(t@.take(t.len() as int) =~= t@);
}

/// Character-by-character equality.
pub fn chars_eq(a: &Vec<char>, b: &Vec<char>) -> (r: bool)
    ensures
        r == (a@ == b@),
{
    if a.len() != b.len() {
        return false;
    }
    let mut i: usize = 0;
    while i < a.len()
        invariant
            i <= a.len() == b.len(),
            forall|m: int| 0 <= m < i ==> a@[m] == b@[m],
        decreases a.len() - i,
    {
        if a[i] != b[i] {
            return false;
        }
        i = i + 1;
    }
    assert(a@ =~= b@);
    true
}

/// Whether the characters of `a` are those of the literal `b`.
pub fn chars_eq_str(a: &Vec<char>, b: &str) -> (r: bool)
    ensures
        r == (a@ == b@),
{
    let t = chars_of(b);
    chars_eq(a, &t)
}

/// Whether two strings hold the same characters.
pub fn same_text(a: &str, b: &str) -> (r: bool)
    ensures
        r == (a@ == b@),
{
    let x = chars_of(a);
    let y = chars_of(b);
    chars_eq(&x, &y)
}

/// `s` without the characters of class `k` at either end.
pub fn trim_chars(v: &Vec<char>, k: CharClass) -> (r: Vec<char>)
    ensures
        r@ == trim_class(v@, k),
{
    let n = v.len();
    let mut i: usize = 0;
    while i < n && class_has(k, v[i])
        invariant
            i <= n == v.len(),
            forall|m: int| 0 <= m < i ==> in_class(k, #[trigger] v@[m]),
        decreases n - i,
    {
        i = i + 1;
    }
    let mut j: usize = n;
    while j > i && class_has(k, v[j - 1])
        invariant
            i <= j <= n == v.len(),
            forall|m: int| j <= m < n ==> in_class(k, #[trigger] v@[m]),
        decreases j,
    {
        j = j - 1;
    }
    proof {
        lemma_trim_start_skip(v@, k, i as int);
        let t = v@.subrange(i as int, n as int);
        if i < n {
            assert(t[0] == v@[i as int]);
            assert(!in_class(k, t[0]));
        } else {
            assert(t.len() == 0);
        }
        assert(trim_start_class(t, k) == t);
        let jj = j - i;
        assert forall|m: int| jj <= m < t.len() implies in_class(k, #[trigger] t[m]) by {
            assert(t[m] == v@[m + i]);
        }
        lemma_trim_end_skip(t, k, jj);
        let u = t.subrange(0, jj);
        assert(u =~= v@.subrange(i as int, j as int));
        if jj > 0 {
            assert(u.last() == v@[j - 1]);
        }
        assert(trim_end_class(u, k) == u);
    }
    slice_chars(v, i, j)
}

/// The pieces of `v` between characters of class `k`, empty pieces included.
pub fn split_chars(v: &Vec<char>, k: CharClass) -> (r: Vec<Vec<char>>)
    ensures
        r.deep_view() == split_class(v@, k),
{
    let mut parts: Vec<Vec<char>> = Vec::new();
    let mut cur: Vec<char> = Vec::new();
    let mut i: usize = 0;
    proof {
        assert(v@.take(0) =~= Seq::<char>::empty());
        assert(parts.deep_view() =~= Seq::<Seq<char>>::empty());
    }
    while i < v.len()
        invariant
            i <= v.len(),
            split_class(v@.take(i as int), k).len() >= 1,
            parts.deep_view() == split_class(v@.take(i as int), k).drop_last(),
            cur@ == split_class(v@.take(i as int), k).last(),
        decreases v.len() - i,
    {
        let c = v[i];
        let ghost before = split_class(v@.take(i as int), k);
        proof {
            lemma_take_push(v@, i as int);
            lemma_split_nonempty(v@.take(i + 1), k);
        }
        if class_has(k, c) {
            let old_cur = cur;
            let ghost pv = parts.deep_view();
            proof {
                lemma_char_vec_deep(old_cur);
            }
            parts.push(old_cur);
            cur = Vec::new();
            proof {
                assert(parts.deep_view() =~= pv.push(old_cur@));
                assert(before.push(Seq::<char>::empty()).drop_last() =~= before);
                assert(before =~= before.drop_last().push(before.last()));
            }
        } else {
            cur.push(c);
            proof {
                let after = before.update(before.len() - 1, before.last().push(c));
                assert(after.drop_last() =~= before.drop_last());
            }
        }
        i = i + 1;
    }
    proof {
        assert(v@.take(v.len() as int) =~= v@);
    }
    let ghost sp = split_class(v@, k);
    let ghost pv = parts.deep_view();
    proof {
        lemma_char_vec_deep(cur);
    }
    parts.push(cur);
    proof {
        assert(parts.deep_view() =~= pv.push(sp.last()));
        assert(sp =~= sp.drop_last().push(sp.last()));
    }
    parts
}

/// The non-empty parts of `parts`, in order.
pub fn keep_nonempty(parts: &Vec<Vec<char>>) -> (r: Vec<Vec<char>>)
    ensures
        r.deep_view() == nonempty_parts(parts.deep_view()),
{
    let mut r: Vec<Vec<char>> = Vec::new();
    let mut i: usize = 0;
    proof {
        assert(parts.deep_view().take(0) =~= Seq::<Seq<char>>::empty());
        assert(r.deep_view() =~= Seq::<Seq<char>>::empty());
    }
    while i < parts.len()
        invariant
            i <= parts.len(),
            r.deep_view() == nonempty_parts(parts.deep_view().take(i as int)),
        decreases parts.len() - i,
    {
        proof {
            lemma_take_push_parts(parts.deep_view(), i as int);
        }
        if parts[i].len() > 0 {
            let ghost rv = r.deep_view();
            r.push(parts[i].clone());
            proof {
                assert(r.deep_view() =~= rv.push(parts.deep_view()[i as int]));
            }
        }
        i = i + 1;
    }
    proof {
        assert(parts.deep_view().take(parts.len() as int) =~= parts.deep_view());
    }
    r
}

/// The parts joined with `sep` between consecutive parts.
pub fn join_chars(parts: &Vec<Vec<char>>, sep: &Vec<char>) -> (r: Vec<char>)
    ensures
        r@ == join_with(parts.deep_view(), sep@),
{
    let mut r: Vec<char> = Vec::new();
    let mut i: usize = 0;
    proof {
        assert(parts.deep_view().take(0) =~= Seq::<Seq<char>>::empty());
    }
    while i < parts.len()
        invariant
            i <= parts.len(),
            r@ == join_with(parts.deep_view().take(i as int), sep@),
        decreases parts.len() - i,
    {
        proof {
            lemma_take_push_parts(parts.deep_view(), i as int);
        }
        if i > 0 {
            r = concat_chars(&r, sep);
        }
        r = concat_chars(&r, &parts[i]);
        proof {
            if i == 0 {
                assert(parts.deep_view().take(1).len() == 1);
                assert(r@ =~= parts.deep_view().take(1)[0]);
            }
        }
        i = i + 1;
    }
    proof {
        assert(parts.deep_view().take(parts.len() as int) =~= parts.deep_view());
    }
    r
}

/// Runs of class-`k` characters collapsed into one `sep`, none left at either end.
pub fn collapse_chars(v: &Vec<char>, k: CharClass, sep: char) -> (r: Vec<char>)
    ensures
        r@ == collapse(v@, k, sep),
{
    let pieces = split_chars(v, k);
    let kept = keep_nonempty(&pieces);
    let mut s: Vec<char> = Vec::new();
    s.push(sep);
    assert(s@ =~= seq![sep]);
    join_chars(&kept, &s)
}

/// Each character rewritten by `m`.
pub fn map_chars(v: &Vec<char>, m: CharMap) -> (r: Vec<char>)
    ensures
        r@ == map_seq(m, v@),
{
    let mut r: Vec<char> = Vec::new();
    let mut i: usize = 0;
    while i < v.len()
        invariant
            i <= v.len(),
            r@ == map_seq(m, v@.take(i as int)),
        decreases v.len() - i,
    {
        r.push(map_one(m, v[i]));
        proof {
            lemma_take_push(v@, i as int);
            assert(map_seq(m, v@.take(i + 1)) =~= map_seq(m, v@.take(i as int)).push(
                map_char(m, v@[i as int]),
            ));
        }
        i = i + 1;
    }
    assert(v@.take(v.len() as int) =~= v@);
    r
}

/// ASCII lower-casing of every character.
pub fn lower_chars(v: &Vec<char>) -> (r: Vec<char>)
    ensures
        r@ == lower_seq(v@),
{
    let mut r: Vec<char> = Vec::new();
    let mut i: usize = 0;
    while i < v.len()
        invariant
            i <= v.len(),
            r@ == lower_seq(v@.take(i as int)),
        decreases v.len() - i,
    {
        r.push(char_ascii_lower(v[i]));
        proof {
            lemma_take_push(v@, i as int);
            assert(lower_seq(v@.take(i + 1)) =~= lower_seq(v@.take(i as int)).push(
                ascii_lower(v@[i as int]),
            ));
        }
        i = i + 1;
    }
    assert(v@.take(v.len() as int) =~= v@);
    r
}

/// Whether `p` occurs at position `i` of `v`.
fn occurs_here(v: &Vec<char>, p: &Vec<char>, i: usize) -> (b: bool)
    requires
        i + p.len() <= v.len(),
    ensures
        b == occurs_at(v@, p@, i as int),
{
    let mut j: usize = 0;
    while j < p.len()
        invariant
            j <= p.len(),
            i + p.len() <= v.len(),
            forall|m: int| 0 <= m < j ==> v@[i + m] == p@[m],
        decreases p.len() - j,
    {
        if v[i + j] != p[j] {
            assert(v@.subrange(i as int, i + p.len())[j as int] != p@[j as int]);
            return false;
        }
        j = j + 1;
    }
    assert(v@.subrange(i as int, i + p.len()) =~= p@);
    true
}

/// Whether `p` occurs in `v`.
pub fn contains_chars(v: &Vec<char>, p: &Vec<char>) -> (b: bool)
    ensures
        b == contains_seq(v@, p@),
{
    reveal(contains_seq);
    if p.len() > v.len() {
        assert(!contains_seq(v@, p@));
        return false;
    }
    let last = v.len() - p.len();
    let mut i: usize = 0;
    loop
        invariant
            last + p.len() == v.len(),
            i <= last,
            forall|m: int| 0 <= m < i ==> !occurs_at(v@, p@, m),
        ensures
            forall|m: int| 0 <= m <= last ==> !occurs_at(v@, p@, m),
        decreases last - i,
    {
        if occurs_here(v, p, i) {
            proof {
                reveal(contains_seq);
            }
            return true;
        }
        if i == last {
            break;
        }
        i = i + 1;
    }
    assert forall|m: int| !occurs_at(v@, p@, m) by {
        if 0 <= m && m + p.len() <= v.len() {
            assert(m <= last);
        }
    }
    false
}

/// Whether the literal `p` occurs in `v`.
pub fn contains_str(v: &Vec<char>, p: &str) -> (b: bool)
    ensures
        b == contains_seq(v@, p@),
{
    let t = chars_of(p);
    contains_chars(v, &t)
}

/// Whether `v` starts with the literal `p`.
pub fn starts_with_str(v: &Vec<char>, p: &str) -> (b: bool)
    ensures
        b == starts_with_seq(v@, p@),
{
    let t = chars_of(p);
    if t.len() > v.len() {
        return false;
    }
    let b = occurs_here(v, &t, 0);
    b
}

/// The first `n` characters of `v`.
pub fn take_chars(v: &Vec<char>, n: usize) -> (r: Vec<char>)
    ensures
        r@ == take_at_most(v@, n as int),
{
    if v.len() <= n {
        let r = v.clone();
        assert(r@ == v@);
        r
    } else {
        slice_chars(v, 0, n)
    }
}

/// The hex-digit characters of `v`, in order.
pub fn hex_digits(v: &Vec<char>) -> (r: Vec<char>)
    ensures
        r@ == hex_digits_of(v@),
{
    let mut r: Vec<char> = Vec::new();
    let mut i: usize = 0;
    while i < v.len()
        invariant
            i <= v.len(),
            r@ == hex_digits_of(v@.take(i as int)),
        decreases v.len() - i,
    {
        proof {
            lemma_take_push(v@, i as int);
        }
        if char_is_ascii_hex(v[i]) {
            r.push(v[i]);
        }
        i = i + 1;
    }
    assert(v@.take(v.len() as int) =~= v@);
    r
}

pub open spec fn char_width(c: char) -> nat {
    let u = c as u32;
    if u <= 0x7F {
        1
    } else if u <= 0x7FF {
        2
    } else if u <= 0xFFFF {
        3
    } else {
        4
    }
}

proof fn lemma_encode_utf8_push(s: Seq<char>, c: char)
    ensures
        utf8_len(s.push(c)) == utf8_len(s) + char_width(c),
    decreases s.len(),
{
    let t = s.push(c);
    if s.len() == 0 {
        assert(t.drop_first() =~= Seq::<char>::empty());
        assert(vstd::utf8::encode_utf8(t) == vstd::utf8::encode_scalar(c as u32)
            + vstd::utf8::encode_utf8(Seq::<char>::empty()));
    } else {
        lemma_encode_utf8_push(s.drop_first(), c);
        assert(t.drop_first() =~= s.drop_first().push(c));
    }
}

/// Whether the UTF-8 encoding of `v` is at least `n` bytes long.
pub fn utf8_len_at_least(v: &Vec<char>, n: usize) -> (b: bool)
    requires
        n <= 0x10000,
    ensures
        b == (utf8_len(v@) >= n),
{
    let mut acc: usize = 0;
    let mut i: usize = 0;
    assert(v@.take(0) =~= Seq::<char>::empty());
    while i < v.len()
        invariant
            i <= v.len(),
            n <= 0x10000,
            acc == utf8_len(v@.take(i as int)),
            acc < n || n == 0,
        decreases v.len() - i,
    {
        if acc >= n {
            proof {
                lemma_utf8_len_prefix(v@, i as int);
            }
            return true;
        }
        let u = v[i] as u32;
        let w: usize = if u <= 0x7F {
            1
        } else if u <= 0x7FF {
            2
        } else if u <= 0xFFFF {
            3
        } else {
            4
        };
        proof {
            lemma_take_push(v@, i as int);
            lemma_encode_utf8_push(v@.take(i as int), v@[i as int]);
        }
        acc = acc + w;
        i = i + 1;
        if acc >= n {
            proof {
                lemma_utf8_len_prefix(v@, i as int);
            }
            return true;
        }
    }
    assert(v@.take(v.len() as int) =~= v@);
    acc >= n
}

proof fn lemma_utf8_len_prefix(s: Seq<char>, i: int)
    requires
        0 <= i <= s.len(),
    ensures
        utf8_len(s.take(i)) <= utf8_len(s),
    decreases s.len() - i,
{
    if i < s.len() {
        lemma_take_push(s, i);
        lemma_encode_utf8_push(s.take(i), s[i]);
        lemma_utf8_len_prefix(s, i + 1);
    } else {
        assert(s.take(i) =~= s);
    }
}

// ---------------------------------------------------------------------------
// Splitting what was joined
// ---------------------------------------------------------------------------

/// No character of `s` is in class `k`.
pub open spec fn free_of(s: Seq<char>, k: CharClass) -> bool {
    forall|i: int| 0 <= i < s.len() ==> !in_class(k, #[trigger] s[i])
}

/// A piece without separators splits into itself.
pub proof fn lemma_split_free(s: Seq<char>, k: CharClass)
    requires
        free_of(s, k),
    ensures
        split_class(s, k) == seq![s],
    decreases s.len(),
{
    if s.len() > 0 {
        lemma_split_free(s.drop_last(), k);
        assert(!in_class(k, s[s.len() - 1]));
        assert(s.drop_last().push(s.last()) =~= s);
        assert(seq![s.drop_last()].update(0, s.drop_last().push(s.last())) =~= seq![s]);
    } else {
        assert(s =~= Seq::<char>::empty());
    }
}

/// Splitting `a`, a separator, then a piece without separators: the pieces
/// of `a`, then that piece.
pub proof fn lemma_split_after_separator(a: Seq<char>, c: char, b: Seq<char>, k: CharClass)
    requires
        in_class(k, c),
        free_of(b, k),
    ensures
        split_class(a.push(c) + b, k) == split_class(a, k).push(b),
    decreases b.len(),
{
    if b.len() == 0 {
        assert(a.push(c) + b =~= a.push(c));
        assert(a.push(c).drop_last() =~= a);
        assert(b =~= Seq::<char>::empty());
    } else {
        let b1 = b.drop_last();
        assert(free_of(b1, k));
        lemma_split_after_separator(a, c, b1, k);
        let x = a.push(c) + b;
        assert(x.drop_last() =~= a.push(c) + b1);
        assert(x.last() == b.last());
        assert(!in_class(k, b[b.len() - 1]));
        let r = split_class(a, k).push(b1);
        assert(b1.push(b.last()) =~= b);
        assert(r.last() == b1);
        assert(r.update(r.len() - 1, r.last().push(b.last())) =~= split_class(a, k).push(b));
    }
}

pub proof fn lemma_nonempty_push(parts: Seq<Seq<char>>, w: Seq<char>)
    requires
        w.len() > 0,
    ensures
        nonempty_parts(parts.push(w)) == nonempty_parts(parts).push(w),
{
    assert(parts.push(w).drop_last() =~= parts);
}

/// The words of what `join_with` made of words are those words again.
pub proof fn lemma_words_of_join(ws: Seq<Seq<char>>, c: char, k: CharClass)
    requires
        in_class(k, c),
        forall|i: int| 0 <= i < ws.len() ==> (#[trigger] ws[i]).len() > 0 && free_of(ws[i], k),
    ensures
        words(join_with(ws, seq![c]), k) == ws,
    decreases ws.len(),
{
    if ws.len() == 0 {
        let p = seq![Seq::<char>::empty()];
        assert(p.len() == 1);
        assert(p.last().len() == 0);
        assert(p.drop_last() =~= Seq::<Seq<char>>::empty());
        assert(nonempty_parts(p.drop_last()) =~= Seq::<Seq<char>>::empty());
        assert(nonempty_parts(p) == nonempty_parts(p.drop_last()));
        assert(join_with(ws, seq![c]) =~= Seq::<char>::empty());
        assert(split_class(Seq::<char>::empty(), k) == p);
    } else if ws.len() == 1 {
        let w = ws[0];
        assert(ws[0].len() > 0 && free_of(ws[0], k));
        lemma_split_free(w, k);
        lemma_nonempty_push(Seq::<Seq<char>>::empty(), w);
        assert(Seq::<Seq<char>>::empty().push(w) =~= seq![w]);
        assert(seq![w] =~= ws);
    } else {
        let init = ws.drop_last();
        let w = ws.last();
        assert(ws[ws.len() - 1].len() > 0 && free_of(ws[ws.len() - 1], k));
        assert forall|i: int| 0 <= i < init.len() implies (#[trigger] init[i]).len() > 0 && free_of(
            init[i],
            k,
        ) by {
            assert(init[i] == ws[i]);
        }
        lemma_words_of_join(init, c, k);
        let j = join_with(init, seq![c]);
        assert(join_with(ws, seq![c]) =~= j.push(c) + w);
        lemma_split_after_separator(j, c, w, k);
        lemma_nonempty_push(split_class(j, k), w);
        assert(init.push(w) =~= ws);
    }
}

/// The pieces `split_class` gives hold no separators.
pub proof fn lemma_split_parts_free(s: Seq<char>, k: CharClass)
    ensures
        forall|i: int| 0 <= i < split_class(s, k).len() ==> free_of(#[trigger] split_class(s, k)[i], k),
        split_class(s, k).len() >= 1,
    decreases s.len(),
{
    if s.len() > 0 {
        lemma_split_parts_free(s.drop_last(), k);
        let r = split_class(s.drop_last(), k);
        if !in_class(k, s.last()) {
            let n = r.update(r.len() - 1, r.last().push(s.last()));
            assert forall|i: int| 0 <= i < n.len() implies free_of(#[trigger] n[i], k) by {
                if i == r.len() - 1 {
                    let p = r.last().push(s.last());
                    assert forall|j: int| 0 <= j < p.len() implies !in_class(k, #[trigger] p[j]) by {
                        if j < r.last().len() {
                            assert(p[j] == r[r.len() - 1][j]);
                        }
                    }
                } else {
                    assert(n[i] == r[i]);
                }
            }
        } else {
            let n = r.push(Seq::<char>::empty());
            assert forall|i: int| 0 <= i < n.len() implies free_of(#[trigger] n[i], k) by {
                if i < r.len() {
                    assert(n[i] == r[i]);
                }
            }
        }
    } else {
        assert(free_of(Seq::<char>::empty(), k));
    }
}

/// The parts `nonempty_parts` keeps are non-empty parts of the input.
pub proof fn lemma_nonempty_parts_kept(parts: Seq<Seq<char>>, k: CharClass)
    requires
        forall|i: int| 0 <= i < parts.len() ==> free_of(#[trigger] parts[i], k),
    ensures
        forall|i: int|
            0 <= i < nonempty_parts(parts).len() ==> (#[trigger] nonempty_parts(parts)[i]).len() > 0
                && free_of(nonempty_parts(parts)[i], k),
    decreases parts.len(),
{
    if parts.len() > 0 {
        let init = parts.drop_last();
        assert forall|i: int| 0 <= i < init.len() implies free_of(#[trigger] init[i], k) by {
            assert(init[i] == parts[i]);
        }
        lemma_nonempty_parts_kept(init, k);
        assert(free_of(parts[parts.len() - 1], k));
        let r = nonempty_parts(init);
        if parts.last().len() > 0 {
            let n = r.push(parts.last());
            assert forall|i: int| 0 <= i < n.len() implies (#[trigger] n[i]).len() > 0 && free_of(
                n[i],
                k,
            ) by {
                if i < r.len() {
                    assert(n[i] == r[i]);
                }
            }
        }
    }
}

/// Collapsing is idempotent when the joining character is itself a separator.
pub proof fn lemma_collapse_idempotent(s: Seq<char>, k: CharClass, c: char)
    requires
        in_class(k, c),
    ensures
        collapse(collapse(s, k, c), k, c) == collapse(s, k, c),
{
    lemma_split_parts_free(s, k);
    lemma_nonempty_parts_kept(split_class(s, k), k);
    lemma_words_of_join(words(s, k), c, k);
}

/// No character of class `k` at either end of `s`, and each one inside it
/// is `c`, with a character of another class on each side.
pub open spec fn single_separated(s: Seq<char>, c: char, k: CharClass) -> bool {
    &&& s.len() > 0 ==> !in_class(k, s[0]) && !in_class(k, s[s.len() - 1])
    &&& forall|i: int|
        0 <= i < s.len() && in_class(k, #[trigger] s[i]) ==> s[i] == c && 0 < i < s.len() - 1
            && !in_class(k, s[i - 1]) && !in_class(k, s[i + 1])
}

/// Non-empty pieces without separators, joined by the separator `c`, are
/// single-separated.
pub proof fn lemma_join_single_separated(ws: Seq<Seq<char>>, c: char, k: CharClass)
    requires
        in_class(k, c),
        forall|i: int| 0 <= i < ws.len() ==> (#[trigger] ws[i]).len() > 0 && free_of(ws[i], k),
    ensures
        ws.len() > 0 ==> join_with(ws, seq![c]).len() > 0,
        single_separated(join_with(ws, seq![c]), c, k),
    decreases ws.len(),
{
    if ws.len() == 1 {
        assert(ws[0].len() > 0 && free_of(ws[0], k));
        assert(join_with(ws, seq![c]) == ws[0]);
    } else if ws.len() > 1 {
        let init = ws.drop_last();
        let w = ws.last();
        assert(ws[ws.len() - 1].len() > 0 && free_of(ws[ws.len() - 1], k));
        assert forall|i: int| 0 <= i < init.len() implies (#[trigger] init[i]).len() > 0 && free_of(
            init[i],
            k,
        ) by {
            assert(init[i] == ws[i]);
        }
        lemma_join_single_separated(init, c, k);
        let j = join_with(init, seq![c]);
        let r = join_with(ws, seq![c]);
        assert(r =~= j.push(c) + w);
        assert forall|i: int| 0 <= i < r.len() && in_class(k, #[trigger] r[i]) implies r[i] == c && 0
            < i < r.len() - 1 && !in_class(k, r[i - 1]) && !in_class(k, r[i + 1]) by {
            if i < j.len() {
                assert(r[i] == j[i]);
                assert(r[i + 1] == j[i + 1]);
                assert(r[i - 1] == j[i - 1]);
            } else if i == j.len() {
                assert(r[i - 1] == j[j.len() - 1]);
                assert(r[i + 1] == w[0]);
            } else {
                assert(r[i] == w[i - j.len() - 1]);
            }
        }
        assert(r[0] == j[0]);
        assert(r[r.len() - 1] == w[w.len() - 1]);
    }
}

/// Every character of `s` satisfies `p`.
pub open spec fn all_chars(s: Seq<char>, p: spec_fn(char) -> bool) -> bool {
    forall|i: int| 0 <= i < s.len() ==> p(#[trigger] s[i])
}

/// The pieces `split_class` gives keep what holds of every character of `s`.
pub proof fn lemma_split_parts_keep(s: Seq<char>, k: CharClass, p: spec_fn(char) -> bool)
    requires
        all_chars(s, p),
    ensures
        forall|i: int|
            0 <= i < split_class(s, k).len() ==> all_chars(#[trigger] split_class(s, k)[i], p),
    decreases s.len(),
{
    if s.len() > 0 {
        let init = s.drop_last();
        assert(all_chars(init, p)) by {
            assert forall|j: int| 0 <= j < init.len() implies p(#[trigger] init[j]) by {
                assert(init[j] == s[j]);
            }
        }
        lemma_split_parts_keep(init, k, p);
        lemma_split_parts_free(init, k);
        let r = split_class(init, k);
        assert(p(s[s.len() - 1]));
        if !in_class(k, s.last()) {
            let n = r.update(r.len() - 1, r.last().push(s.last()));
            assert forall|i: int| 0 <= i < n.len() implies all_chars(#[trigger] n[i], p) by {
                if i == r.len() - 1 {
                    let q = r.last().push(s.last());
                    assert(all_chars(r[r.len() - 1], p));
                    assert forall|j: int| 0 <= j < q.len() implies p(#[trigger] q[j]) by {
                        if j < r.last().len() {
                            assert(q[j] == r[r.len() - 1][j]);
                        }
                    }
                } else {
                    assert(n[i] == r[i]);
                }
            }
        } else {
            let n = r.push(Seq::<char>::empty());
            assert forall|i: int| 0 <= i < n.len() implies all_chars(#[trigger] n[i], p) by {
                if i < r.len() {
                    assert(n[i] == r[i]);
                }
            }
        }
    }
}

/// The parts `nonempty_parts` keeps are parts of the input.
pub proof fn lemma_nonempty_parts_keep(parts: Seq<Seq<char>>, p: spec_fn(char) -> bool)
    requires
        forall|i: int| 0 <= i < parts.len() ==> all_chars(#[trigger] parts[i], p),
    ensures
        forall|i: int|
            0 <= i < nonempty_parts(parts).len() ==> all_chars(#[trigger] nonempty_parts(parts)[i], p),
    decreases parts.len(),
{
    if parts.len() > 0 {
        let init = parts.drop_last();
        assert forall|i: int| 0 <= i < init.len() implies all_chars(#[trigger] init[i], p) by {
            assert(init[i] == parts[i]);
        }
        lemma_nonempty_parts_keep(init, p);
        assert(all_chars(parts[parts.len() - 1], p));
        let r = nonempty_parts(init);
        if parts.last().len() > 0 {
            let n = r.push(parts.last());
            assert forall|i: int| 0 <= i < n.len() implies all_chars(#[trigger] n[i], p) by {
                if i < r.len() {
                    assert(n[i] == r[i]);
                }
            }
        }
    }
}

/// Joining pieces by `c` keeps what holds of every character of the pieces and of `c`.
pub proof fn lemma_join_keeps(ws: Seq<Seq<char>>, c: char, p: spec_fn(char) -> bool)
    requires
        p(c),
        forall|i: int| 0 <= i < ws.len() ==> all_chars(#[trigger] ws[i], p),
    ensures
        all_chars(join_with(ws, seq![c]), p),
    decreases ws.len(),
{
    if ws.len() == 1 {
        assert(all_chars(ws[0], p));
        assert(join_with(ws, seq![c]) == ws[0]);
    } else if ws.len() > 1 {
        let init = ws.drop_last();
        let w = ws.last();
        assert(all_chars(ws[ws.len() - 1], p));
        assert forall|i: int| 0 <= i < init.len() implies all_chars(#[trigger] init[i], p) by {
            assert(init[i] == ws[i]);
        }
        lemma_join_keeps(init, c, p);
        let j = join_with(init, seq![c]);
        let r = join_with(ws, seq![c]);
        assert(r =~= j.push(c) + w);
        assert forall|i: int| 0 <= i < r.len() implies p(#[trigger] r[i]) by {
            if i < j.len() {
                assert(r[i] == j[i]);
            } else if i > j.len() {
                assert(r[i] == w[i - j.len() - 1]);
            }
        }
    }
}

} // verus!

//! Character-level text utilities: conversions between strings and
//! character vectors, trimming, substring search, lexicographic order,
//! and the word-wrapping used by the preview pane.

use vstd::prelude::*;
use vstd::string::*;

verus! {

/// What `char::is_whitespace` returns for one character (the Unicode
/// `White_Space` property, which a spec function cannot reasonably spell
/// out here).
pub uninterp spec fn is_space(c: char) -> bool;

/// Relies on char::is_whitespace: whether one character has the Unicode
/// `White_Space` property; a pure function of the character.
#[verifier::external_body]
pub(crate) fn is_whitespace_char(c: char) -> (r: bool)
    ensures
        r == is_space(c),
{
    c.is_whitespace()
}

/// What `str::to_lowercase` returns: the lowercase mapping of a character
/// sequence. It depends on the characters alone (no locale input), and may
/// change the length.
pub uninterp spec fn lower_of(s: Seq<char>) -> Seq<char>;

/// Relies on str::to_lowercase: the lowercase conversion of a string,
/// a pure function of its characters.
#[verifier::external_body]
pub(crate) fn to_lowercase_str(s: &str) -> (r: String)
    ensures
        r@ == lower_of(s@),
{
    s.to_lowercase()
}

/// Relies on String::push: appends one character at the end.
#[verifier::external_body]
pub(crate) fn push_char(s: &mut String, c: char)
    ensures
        final(s)@ == old(s)@.push(c),
{
    s.push(c);
}

/// Relies on String::pop: removes and returns the last character, or
/// returns None when the string is empty.
#[verifier::external_body]
pub(crate) fn pop_char(s: &mut String) -> (r: Option<char>)
    ensures
        old(s)@.len() == 0 ==> final(s)@ == old(s)@ && r is None,
        old(s)@.len() > 0 ==> final(s)@ == old(s)@.drop_last() && r == Some(old(s)@.last()),
{
    s.pop()
}

/// The characters of a string, as a vector.
pub fn str_to_chars(s: &str) -> (v: Vec<char>)
    ensures
        v@ == s@,
{
    let n = s.unicode_len();
    let mut v: Vec<char> = Vec::new();
    let mut i: usize = 0;
    while i < n
        invariant
            i <= n,
            n == s@.len(),
            v@ == s@.subrange(0, i as int),
        decreases n - i,
    {
        v.push(s.get_char(i));
        proof {
            assert(s@.subrange(0, i as int).push(s@.index(i as int)) =~= s@.subrange(
                0,
                i as int + 1,
            ));
        }
        i += 1;
    }
    proof {
        assert(s@.subrange(0, n as int) =~= s@);
    }
    v
}

/// A string holding exactly the given characters.
pub fn chars_to_string(v: &Vec<char>) -> (s: String)
    ensures
        s@ == v@,
{
    let mut s = String::new();
    let mut i: usize = 0;
    while i < v.len()
        invariant
            i <= v@.len(),
            s@ == v@.subrange(0, i as int),
        decreases v@.len() - i,
    {
        push_char(&mut s, v[i]);
        proof {
            assert(v@.subrange(0, i as int).push(v@.index(i as int)) =~= v@.subrange(
                0,
                i as int + 1,
            ));
        }
        i += 1;
    }
    proof {
        assert(v@.subrange(0, v@.len() as int) =~= v@);
    }
    s
}

/// The needle occurs in the haystack starting at position `i`.
pub open spec fn substr_at(hay: Seq<char>, needle: Seq<char>, i: int) -> bool {
    0 <= i && i + needle.len() <= hay.len() && hay.subrange(i, i + needle.len()) == needle
}

/// The needle occurs somewhere in the haystack (case-sensitively).
pub open spec fn has_substr(hay: Seq<char>, needle: Seq<char>) -> bool {
    exists|i: int| substr_at(hay, needle, i)
}

/// Whether `needle` occurs contiguously in `hay`. Matches the substring
/// relation of `str::contains`: a character-level match, since UTF-8
/// substring matches always align on character boundaries.
pub fn contains_chars(hay: &Vec<char>, needle: &Vec<char>) -> (r: bool)
    ensures
        r == has_substr(hay@, needle@),
{
    if needle.len() == 0 {
        proof {
            assert(hay@.subrange(0, 0) =~= needle@);
            assert(substr_at(hay@, needle@, 0));
        }
        return true;
    }
    if needle.len() > hay.len() {
        proof {
            assert(forall|i: int| !substr_at(hay@, needle@, i));
        }
        return false;
    }
    let mut i: usize = 0;
    let last = hay.len() - needle.len();
    while i <= last
        invariant
            1 <= needle@.len() <= hay@.len(),
            last == hay@.len() - needle@.len(),
            last < usize::MAX,
            i <= last + 1,
            forall|j: int| 0 <= j < i ==> !substr_at(hay@, needle@, j),
        decreases last + 1 - i,
    {
        if match_at(hay, needle, i) {
            return true;
        }
        i += 1;
    }
    proof {
        assert(forall|j: int| j > last ==> !substr_at(hay@, needle@, j));
    }
    false
}

/// Whether `needle` matches `hay` at position `i`.
pub(crate) fn match_at(hay: &Vec<char>, needle: &Vec<char>, i: usize) -> (r: bool)
    requires
        i + needle@.len() <= hay@.len(),
    ensures
        r == substr_at(hay@, needle@, i as int),
{
    let hlen = hay.len();
    let mut k: usize = 0;
    while k < needle.len()
        invariant
            hlen == hay@.len(),
            i + needle@.len() <= hay@.len(),
            k <= needle@.len(),
            forall|j: int| 0 <= j < k ==> hay@[i + j] == needle@[j],
        decreases needle@.len() - k,
    {
        if hay[i + k] != needle[k] {
            proof {
                assert(hay@.subrange(i as int, i + needle@.len()) != needle@) by {
                    assert(hay@.subrange(i as int, i + needle@.len())[k as int] != needle@[k as int]);
                }
            }
            return false;
        }
        k += 1;
    }
    proof {
        assert(hay@.subrange(i as int, i + needle@.len()) =~= needle@);
    }
    true
}

/// A copy of the characters `v[a..b]`.
pub fn subvec(v: &Vec<char>, a: usize, b: usize) -> (r: Vec<char>)
    requires
        a <= b <= v@.len(),
    ensures
        r@ == v@.subrange(a as int, b as int),
{
    let mut r: Vec<char> = Vec::new();
    let mut i: usize = a;
    while i < b
        invariant
            a <= i <= b <= v@.len(),
            r@ == v@.subrange(a as int, i as int),
        decreases b - i,
    {
        r.push(v[i]);
        proof {
            assert(v@.subrange(a as int, i as int).push(v@[i as int]) =~= v@.subrange(
                a as int,
                i as int + 1,
            ));
        }
        i += 1;
    }
    r
}

/// The character classes that the trimming helpers strip.
#[derive(Clone, Copy, PartialEq, Eq, Structural, Debug)]
pub enum TrimKind {
    /// Unicode whitespace, as `char::is_whitespace` classifies it.
    Space,
    /// A double-quote character.
    Quote,
    /// A single-quote character.
    Tick,
    /// An angle bracket, `<` or `>`.
    Angle,
}

/// Whether a character belongs to a trim class.
pub open spec fn trim_kind_pred(k: TrimKind, c: char) -> bool {
    match k {
        TrimKind::Space => is_space(c),
        TrimKind::Quote => c == '"',
        TrimKind::Tick => c == '\'',
        TrimKind::Angle => c == '<' || c == '>',
    }
}

/// The membership test of a trim class, as a spec closure.
pub open spec fn kind_pred(k: TrimKind) -> spec_fn(char) -> bool {
    |c: char| trim_kind_pred(k, c)
}

/// Executable membership test of a trim class.
pub(crate) fn kind_matches(k: TrimKind, c: char) -> (r: bool)
    ensures
        r == trim_kind_pred(k, c),
{
    match k {
        TrimKind::Space => is_whitespace_char(c),
        TrimKind::Quote => c == '"',
        TrimKind::Tick => c == '\'',
        TrimKind::Angle => c == '<' || c == '>',
    }
}

/// The sequence with its longest prefix of `p`-characters removed.
pub open spec fn trim_left_spec(s: Seq<char>, p: spec_fn(char) -> bool) -> Seq<char>
    decreases s.len(),
{
    if s.len() > 0 && p(s[0]) {
        trim_left_spec(s.skip(1), p)
    } else {
        s
    }
}

/// The sequence with its longest suffix of `p`-characters removed.
pub open spec fn trim_right_spec(s: Seq<char>, p: spec_fn(char) -> bool) -> Seq<char>
    decreases s.len(),
{
    if s.len() > 0 && p(s.last()) {
        trim_right_spec(s.drop_last(), p)
    } else {
        s
    }
}

/// Both ends trimmed.
pub open spec fn trim_spec(s: Seq<char>, p: spec_fn(char) -> bool) -> Seq<char> {
    trim_right_spec(trim_left_spec(s, p), p)
}

/// Trimming never lengthens a sequence.
pub proof fn lemma_trim_left_len(s: Seq<char>, p: spec_fn(char) -> bool)
    ensures
        trim_left_spec(s, p).len() <= s.len(),
    decreases s.len(),
{
    if s.len() > 0 && p(s[0]) {
        lemma_trim_left_len(s.skip(1), p);
    }
}

/// Trimming never lengthens a sequence.
pub proof fn lemma_trim_right_len(s: Seq<char>, p: spec_fn(char) -> bool)
    ensures
        trim_right_spec(s, p).len() <= s.len(),
    decreases s.len(),
{
    if s.len() > 0 && p(s.last()) {
        lemma_trim_right_len(s.drop_last(), p);
    }
}

/// A prefix of `k` characters in the class, with a non-member (or the end)
/// right after it, pins the left trim down to `s.skip(k)`.
pub proof fn lemma_trim_left_at(s: Seq<char>, p: spec_fn(char) -> bool, k: int)
    requires
        0 <= k <= s.len(),
        forall|j: int| 0 <= j < k ==> p(s[j]),
        k == s.len() || !p(s[k]),
    ensures
        trim_left_spec(s, p) == s.skip(k),
    decreases k,
{
    if k == 0 {
        assert(s.skip(0) =~= s);
    } else {
        assert(p(s[0]));
        lemma_trim_left_at(s.skip(1), p, k - 1);
        assert(s.skip(1).skip(k - 1) =~= s.skip(k));
    }
}

/// A suffix of class characters starting at `k`, with a non-member (or the
/// start) right before it, pins the right trim down to `s.take(k)`.
pub proof fn lemma_trim_right_at(s: Seq<char>, p: spec_fn(char) -> bool, k: int)
    requires
        0 <= k <= s.len(),
        forall|j: int| k <= j < s.len() ==> p(s[j]),
        k == 0 || !p(s[k - 1]),
    ensures
        trim_right_spec(s, p) == s.take(k),
    decreases s.len() - k,
{
    if k == s.len() {
        assert(s.take(k) =~= s);
    } else {
        assert(p(s.last()));
        lemma_trim_right_at(s.drop_last(), p, k);
        assert(s.drop_last().take(k) =~= s.take(k));
    }
}

/// The given characters with leading characters of the class removed, as
/// `str::trim_start` does.
pub fn trim_vec_left(v: &Vec<char>, k: TrimKind) -> (r: Vec<char>)
    ensures
        r@ == trim_left_spec(v@, kind_pred(k)),
{
    let mut start: usize = 0;
    while start < v.len() && kind_matches(k, v[start])
        invariant
            start <= v@.len(),
            forall|j: int| 0 <= j < start ==> kind_pred(k)(v@[j]),
        decreases v@.len() - start,
    {
        start += 1;
    }
    proof {
        lemma_trim_left_at(v@, kind_pred(k), start as int);
        assert(v@.subrange(start as int, v@.len() as int) =~= v@.skip(start as int));
    }
    subvec(v, start, v.len())
}

/// The given characters with trailing characters of the class removed, as
/// `str::trim_end` does.
pub fn trim_vec_right(v: &Vec<char>, k: TrimKind) -> (r: Vec<char>)
    ensures
        r@ == trim_right_spec(v@, kind_pred(k)),
{
    let mut end: usize = v.len();
    while end > 0 && kind_matches(k, v[end - 1])
        invariant
            end <= v@.len(),
            forall|j: int| end <= j < v@.len() ==> kind_pred(k)(v@[j]),
        decreases end,
    {
        end -= 1;
    }
    proof {
        lemma_trim_right_at(v@, kind_pred(k), end as int);
        assert(v@.subrange(0, end as int) =~= v@.take(end as int));
    }
    subvec(v, 0, end)
}

/// The given characters with leading and trailing characters of the class
/// removed, as `str::trim` and `str::trim_matches` do.
pub fn trim_vec(v: &Vec<char>, k: TrimKind) -> (r: Vec<char>)
    ensures
        r@ == trim_spec(v@, kind_pred(k)),
{
    let left = trim_vec_left(v, k);
    trim_vec_right(&left, k)
}

/// What a configured directory value means: the raw setting with any
/// surrounding double quotes removed, then any surrounding single quotes.
pub open spec fn clean_dir_spec(s: Seq<char>) -> Seq<char> {
    trim_spec(trim_spec(s, kind_pred(TrimKind::Quote)), kind_pred(TrimKind::Tick))
}

/// Strip the quoting a configuration value may carry: surrounding double
/// quotes first, then surrounding single quotes.
pub fn clean_dir_value(s: &str) -> (r: String)
    ensures
        r@ == clean_dir_spec(s@),
{
    let chars = str_to_chars(s);
    let unquoted = trim_vec(&chars, TrimKind::Quote);
    let unticked = trim_vec(&unquoted, TrimKind::Tick);
    chars_to_string(&unticked)
}

/// Strict lexicographic order on character sequences, by code point.
/// For the UTF-8 encoded strings this crate compares it coincides with
/// Rust's byte-wise `str` order, since UTF-8 preserves code-point order.
pub open spec fn lex_lt(a: Seq<char>, b: Seq<char>) -> bool
    decreases a.len(),
{
    if b.len() == 0 {
        false
    } else if a.len() == 0 {
        true
    } else if (a[0] as u32) < (b[0] as u32) {
        true
    } else if (a[0] as u32) > (b[0] as u32) {
        false
    } else {
        lex_lt(a.skip(1), b.skip(1))
    }
}

/// Reflexive lexicographic order.
pub open spec fn lex_le(a: Seq<char>, b: Seq<char>) -> bool {
    a == b || lex_lt(a, b)
}

/// Of two distinct sequences, one is strictly below the other.
pub proof fn lemma_lex_lt_connex(a: Seq<char>, b: Seq<char>)
    ensures
        a == b || lex_lt(a, b) || lex_lt(b, a),
    decreases a.len(),
{
    if a.len() == 0 || b.len() == 0 {
        if a.len() == b.len() {
            assert(a =~= b);
        }
    } else {
        if (a[0] as u32) == (b[0] as u32) {
            vstd::utf8::char_u32_cast(a[0], a[0] as u32);
            vstd::utf8::char_u32_cast(b[0], b[0] as u32);
            assert(a[0] == b[0]);
            lemma_lex_lt_connex(a.skip(1), b.skip(1));
            if a.skip(1) == b.skip(1) {
                assert(a.skip(1).len() == a.len() - 1);
                assert(b.skip(1).len() == b.len() - 1);
                assert(a.len() == b.len());
                assert forall|i: int| 0 <= i < a.len() implies a[i] == b[i] by {
                    if i >= 1 {
                        assert(a[i] == a.skip(1)[i - 1]);
                        assert(b[i] == b.skip(1)[i - 1]);
                    }
                }
                assert(a =~= b);
            }
        }
    }
}

/// Strict lexicographic order is transitive.
pub proof fn lemma_lex_lt_trans(a: Seq<char>, b: Seq<char>, c: Seq<char>)
    requires
        lex_lt(a, b),
        lex_lt(b, c),
    ensures
        lex_lt(a, c),
    decreases a.len(),
{
    if c.len() == 0 || a.len() == 0 {
    } else {
        if (a[0] as u32) == (b[0] as u32) && (b[0] as u32) == (c[0] as u32) {
            lemma_lex_lt_trans(a.skip(1), b.skip(1), c.skip(1));
        }
    }
}

/// Whether `a` is lexicographically strictly below `b`.
pub fn str_lt(a: &str, b: &str) -> (r: bool)
    ensures
        r == lex_lt(a@, b@),
{
    let va = str_to_chars(a);
    let vb = str_to_chars(b);
    chars_lt(&va, &vb)
}

/// `lex_lt` on character vectors.
pub fn chars_lt(a: &Vec<char>, b: &Vec<char>) -> (r: bool)
    ensures
        r == lex_lt(a@, b@),
{
    let mut i: usize = 0;
    proof {
        assert(a@.skip(0) =~= a@);
        assert(b@.skip(0) =~= b@);
    }
    loop
        invariant
            i <= a@.len(),
            i <= b@.len(),
            lex_lt(a@, b@) == lex_lt(a@.skip(i as int), b@.skip(i as int)),
        decreases a@.len() - i,
    {
        if i >= b.len() {
            proof {
                assert(b@.skip(i as int).len() == 0);
            }
            return false;
        }
        if i >= a.len() {
            proof {
                assert(a@.skip(i as int).len() == 0);
                assert(b@.skip(i as int).len() > 0);
            }
            return true;
        }
        let ca = a[i] as u32;
        let cb = b[i] as u32;
        proof {
            assert(a@.skip(i as int)[0] == a@[i as int]);
            assert(b@.skip(i as int)[0] == b@[i as int]);
        }
        if ca < cb {
            return true;
        }
        if ca > cb {
            return false;
        }
        proof {
            assert(a@.skip(i as int).skip(1) =~= a@.skip(i as int + 1));
            assert(b@.skip(i as int).skip(1) =~= b@.skip(i as int + 1));
        }
        i += 1;
    }
}

} // verus!

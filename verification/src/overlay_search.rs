//! Regex/literal search over an overlay's text: the character-offset spans of
//! every non-empty match, and the clamped step between matches. The pattern is
//! a regex, smart-cased (case-insensitive unless it holds an uppercase
//! character); a pattern that is not a valid regex is searched literally.

use vstd::prelude::*;
use vstd::utf8::{
    decode_utf8, decode_utf8_encode_utf8, decode_utf8_split, encode_utf8, encode_utf8_decode_utf8, encode_utf8_valid_utf8,
    is_char_boundary, valid_utf8_split,
};
use vstd::string::StringSliceAdditionalSpecFns;

verus! {

#[verifier::external_type_specification]
#[verifier::external_body]
pub struct ExRegex(regex::Regex);

/// Whether `pattern` compiles as a regex with the given case sensitivity.
pub uninterp spec fn regex_compiles(pattern: Seq<char>, case_insensitive: bool) -> bool;

/// The byte spans of the successive non-overlapping matches of the regex
/// compiled from `pattern` in `haystack`.
pub uninterp spec fn regex_match_spans(pattern: Seq<char>, case_insensitive: bool, haystack: Seq<char>) -> Seq<(usize, usize)>;

/// `pattern` with every regex meta character escaped.
pub uninterp spec fn regex_escaped(pattern: Seq<char>) -> Seq<char>;

/// Whether `c` is an uppercase character (Unicode `Uppercase` property).
pub uninterp spec fn char_uppercase(c: char) -> bool;

/// A compiled regex together with the pattern and case mode it was compiled
/// from. Built only by `Matcher::compile`, so the regex always belongs to the
/// recorded pattern and mode.
struct Matcher {
    regex: regex::Regex,
    pattern: String,
    case_insensitive: bool,
}

/// Calls `regex::RegexBuilder::new(pattern).case_insensitive(..).build()`.
/// Claims only that the build succeeds exactly when the pattern compiles in
/// that mode (a fact of the pattern and mode alone).
#[verifier::external_body]
fn build_regex(pattern: &str, case_insensitive: bool) -> (r: Option<regex::Regex>)
    ensures
        r is Some <==> regex_compiles(pattern@, case_insensitive),
{
    regex::RegexBuilder::new(pattern).case_insensitive(case_insensitive).build().ok()
}

/// Calls `regex::Regex::find_iter` on the matcher's regex and reads each
/// match's `start()`/`end()`. Claims the spans are those of the regex compiled
/// from the matcher's pattern and mode; that, as the `Match` documentation
/// guarantees, each has `start <= end`, lies within the haystack and falls on
/// UTF-8 character boundaries; and that, as `find_iter`'s documentation says
/// ("successive non-overlapping matches"), each match ends no later than the
/// next one starts.
#[verifier::external_body]
fn find_spans(m: &Matcher, haystack: &str) -> (r: Vec<(usize, usize)>)
    ensures
        r@ == regex_match_spans(m.pattern@, m.case_insensitive, haystack@),
        forall|i: int|
            0 <= i < r@.len() ==> {
                &&& (#[trigger] r@[i]).0 <= r@[i].1 <= haystack.spec_bytes().len()
                &&& is_char_boundary(haystack.spec_bytes(), r@[i].0 as int)
                &&& is_char_boundary(haystack.spec_bytes(), r@[i].1 as int)
            },
        forall|i: int| 0 <= i < r@.len() - 1 ==> (#[trigger] r@[i]).1 <= r@[i + 1].0,
{
    let mut v = Vec::new();
    for x in m.regex.find_iter(haystack) {
        v.push((x.start(), x.end()));
    }
    v
}

/// Calls `regex::escape`.
#[verifier::external_body]
fn escape_pattern(pattern: &str) -> (r: String)
    ensures
        r@ == regex_escaped(pattern@),
{
    regex::escape(pattern)
}

/// Calls `char::is_uppercase`. Claims its result is the `Uppercase` property
/// of `c`, true for `A`..`Z` and false for `a`..`z`.
#[verifier::external_body]
fn is_uppercase_char(c: char) -> (r: bool)
    ensures
        r == char_uppercase(c),
        'A' <= c <= 'Z' ==> r,
        'a' <= c <= 'z' ==> !r,
{
    c.is_uppercase()
}

impl Matcher {
    /// Compile `pattern` in the given mode.
    fn compile(pattern: &str, case_insensitive: bool) -> (r: Option<Matcher>)
        ensures
            r is Some <==> regex_compiles(pattern@, case_insensitive),
            r matches Some(m) ==> m.pattern@ == pattern@ && m.case_insensitive == case_insensitive,
    {
        match build_regex(pattern, case_insensitive) {
            Some(regex) => Some(Matcher { regex, pattern: pattern.to_owned(), case_insensitive }),
            None => None,
        }
    }
}

/// Smart case: case-insensitive unless the pattern holds an uppercase character.
pub open spec fn smart_case_insensitive(pattern: Seq<char>) -> bool {
    !exists|i: int| 0 <= i < pattern.len() && char_uppercase(#[trigger] pattern[i])
}

/// The regex actually searched: the pattern itself when it compiles, else the
/// pattern escaped into a literal.
pub open spec fn search_source(pattern: Seq<char>) -> Seq<char> {
    if regex_compiles(pattern, smart_case_insensitive(pattern)) {
        pattern
    } else {
        regex_escaped(pattern)
    }
}

/// The character offset of byte offset `b` in the UTF-8 encoding of `text`:
/// the number of characters the first `b` bytes decode to.
pub open spec fn char_offset(text: Seq<char>, b: int) -> int {
    decode_utf8(encode_utf8(text).subrange(0, b)).len() as int
}

/// The non-empty byte spans, as character-offset spans.
pub open spec fn char_spans(text: Seq<char>, spans: Seq<(usize, usize)>) -> Seq<(i32, i32)>
    decreases spans.len(),
{
    if spans.len() == 0 {
        Seq::empty()
    } else {
        let rest = char_spans(text, spans.drop_last());
        let (a, b) = spans.last();
        if a == b {
            rest
        } else {
            rest.push((char_offset(text, a as int) as i32, char_offset(text, b as int) as i32))
        }
    }
}

/// What `collect` returns: nothing for an empty pattern or an unsearchable
/// one; otherwise the character spans of every non-empty match of the
/// searched regex, in document order.
pub open spec fn collect_spec(text: Seq<char>, pattern: Seq<char>) -> Seq<(i32, i32)> {
    let ci = smart_case_insensitive(pattern);
    let src = search_source(pattern);
    if pattern.len() == 0 || !regex_compiles(src, ci) {
        Seq::empty()
    } else {
        char_spans(text, regex_match_spans(src, ci, text))
    }
}

/// Whether the pattern holds an uppercase character.
fn has_uppercase(pattern: &str) -> (r: bool)
    ensures
        r == !smart_case_insensitive(pattern@),
{
    let n = pattern.unicode_len();
    let mut i: usize = 0;
    while i < n
        invariant
            n == pattern@.len(),
            i <= n,
            forall|k: int| 0 <= k < i ==> !char_uppercase(#[trigger] pattern@[k]),
        decreases n - i,
    {
        let c = pattern.get_char(i);
        if is_uppercase_char(c) {
            return true;
        }
        i += 1;
    }
    false
}


proof fn lemma_encode_concat(x: Seq<char>, y: Seq<char>)
    ensures
        encode_utf8(x + y) == encode_utf8(x) + encode_utf8(y),
    decreases x.len(),
{
    if x.len() == 0 {
        assert(x + y =~= y);
        assert(encode_utf8(x) + encode_utf8(y) =~= encode_utf8(y));
    } else {
        assert((x + y).drop_first() =~= x.drop_first() + y);
        assert((x + y)[0] == x[0]);
        lemma_encode_concat(x.drop_first(), y);
        assert(encode_utf8(x + y) =~= encode_utf8(x) + encode_utf8(y));
    }
}

/// The encoding of a longer prefix is strictly longer.
proof fn lemma_encode_prefix_strict(t: Seq<char>, i: int, j: int)
    requires
        0 <= i < j <= t.len(),
    ensures
        encode_utf8(t.take(i)).len() < encode_utf8(t.take(j)).len(),
    decreases j,
{
    let c = seq![t[j - 1]];
    assert(t.take(j) =~= t.take(j - 1) + c);
    lemma_encode_concat(t.take(j - 1), c);
    assert(c.drop_first() =~= Seq::<char>::empty());
    assert(encode_utf8(c).len() >= 1);
    if i < j - 1 {
        lemma_encode_prefix_strict(t, i, j - 1);
    }
}

/// At a character boundary `b` of the encoding of `t`, the bytes before `b`
/// encode the first `char_offset(t, b)` characters.
proof fn lemma_boundary_prefix(t: Seq<char>, b: int)
    requires
        is_char_boundary(encode_utf8(t), b),
        0 <= b <= encode_utf8(t).len(),
    ensures
        0 <= char_offset(t, b) <= t.len(),
        encode_utf8(t.take(char_offset(t, b))) == encode_utf8(t).subrange(0, b),
{
    let e = encode_utf8(t);
    encode_utf8_valid_utf8(t);
    encode_utf8_decode_utf8(t);
    decode_utf8_split(e, b);
    valid_utf8_split(e, b);
    let pre = decode_utf8(e.subrange(0, b));
    let k = pre.len() as int;
    assert(t =~= pre + decode_utf8(e.subrange(b, e.len() as int)));
    assert(t.take(k) =~= pre);
    decode_utf8_encode_utf8(e.subrange(0, b));
}

/// Character offsets grow with the byte offsets they come from, strictly
/// between distinct boundaries.
proof fn lemma_char_offset_mono(t: Seq<char>, a: int, b: int)
    requires
        is_char_boundary(encode_utf8(t), a),
        is_char_boundary(encode_utf8(t), b),
        0 <= a <= b <= encode_utf8(t).len(),
    ensures
        char_offset(t, a) <= char_offset(t, b) <= t.len(),
        a < b ==> char_offset(t, a) < char_offset(t, b),
{
    lemma_boundary_prefix(t, a);
    lemma_boundary_prefix(t, b);
    let ca = char_offset(t, a);
    let cb = char_offset(t, b);
    if ca > cb {
        lemma_encode_prefix_strict(t, cb, ca);
    }
    if a < b && ca == cb {
        assert(encode_utf8(t).subrange(0, a).len() == encode_utf8(t).subrange(0, b).len());
    }
}

/// The number of characters before byte offset `b` of `text`.
fn char_offset_of(text: &str, b: usize) -> (r: usize)
    requires
        is_char_boundary(text.spec_bytes(), b as int),
        b <= text.spec_bytes().len(),
    ensures
        r == char_offset(text@, b as int),
        r <= text@.len(),
{
    proof {
        lemma_boundary_prefix(text@, b as int);
    }
    let (pre, _rest) = text.split_at(b);
    proof {
        broadcast use encode_utf8_decode_utf8;
        assert(pre.spec_bytes() == encode_utf8(pre@));
        assert(decode_utf8(encode_utf8(pre@)) == pre@);
        assert(pre.spec_bytes() =~= encode_utf8(text@).subrange(0, b as int));
    }
    pre.unicode_len()
}

/// Non-empty spans within `0..=n`, in document order and never
/// overlapping.
pub open spec fn spans_in_order(r: Seq<(i32, i32)>, n: int) -> bool {
    &&& forall|k: int| 0 <= k < r.len() ==> 0 <= (#[trigger] r[k]).0 < r[k].1 <= n
    &&& forall|k: int| 0 <= k < r.len() - 1 ==> (#[trigger] r[k]).1 <= r[k + 1].0
}

/// Character-offset `(start, end)` spans of every non-empty match of
/// `pattern` in `text`, in document order. `pattern` is a smart-cased regex;
/// an invalid regex is searched as a literal. An empty pattern matches
/// nothing. Offsets count characters, not bytes; for a text whose character
/// count fits an `i32`, the spans are non-empty, within the text, in
/// document order and never overlap.
pub fn collect(text: &str, pattern: &str) -> (r: Vec<(i32, i32)>)
    ensures
        r@ == collect_spec(text@, pattern@),
        text@.len() <= i32::MAX ==> spans_in_order(r@, text@.len() as int),
{
    if pattern.is_empty() {
        return Vec::new();
    }
    let ci = !has_uppercase(pattern);
    let m = match Matcher::compile(pattern, ci) {
        Some(m) => m,
        None => {
            let escaped = escape_pattern(pattern);
            match Matcher::compile(escaped.as_str(), ci) {
                Some(m) => m,
                None => {
                    return Vec::new();
                },
            }
        },
    };
    let spans = find_spans(&m, text);
    let ghost small = text@.len() <= i32::MAX;
    let ghost n = text@.len() as int;
    let mut out: Vec<(i32, i32)> = Vec::new();
    let mut k: usize = 0;
    while k < spans.len()
        invariant
            k <= spans@.len(),
            out@ == char_spans(text@, spans@.take(k as int)),
            small == (text@.len() <= i32::MAX),
            n == text@.len(),
            forall|i: int|
                0 <= i < spans@.len() ==> {
                    &&& (#[trigger] spans@[i]).0 <= spans@[i].1 <= text.spec_bytes().len()
                    &&& is_char_boundary(text.spec_bytes(), spans@[i].0 as int)
                    &&& is_char_boundary(text.spec_bytes(), spans@[i].1 as int)
                },
            forall|i: int| 0 <= i < spans@.len() - 1 ==> (#[trigger] spans@[i]).1 <= spans@[i + 1].0,
            small ==> spans_in_order(out@, n),
            small && out@.len() > 0 && k < spans@.len() ==> out@.last().1 <= char_offset(text@, spans@[k as int].0 as int),
        decreases spans@.len() - k,
    {
        let (a, b) = spans[k];
        proof {
            let t = spans@.take(k + 1);
            assert(t.drop_last() =~= spans@.take(k as int));
            assert(t.last() == spans@[k as int]);
            assert(spans@[k as int].0 <= spans@[k as int].1);
            lemma_char_offset_mono(text@, a as int, b as int);
            if k + 1 < spans@.len() {
                assert(spans@[k as int].1 <= spans@[k + 1].0);
                assert(spans@[k + 1].0 <= spans@[k + 1].1);
                lemma_char_offset_mono(text@, b as int, spans@[k + 1].0 as int);
            }
        }
        if a != b {
            let sa = char_offset_of(text, a);
            let sb = char_offset_of(text, b);
            let ghost before = out@;
            out.push((sa as i32, sb as i32));
            proof {
                if small {
                    assert(sa as int <= n && sb as int <= n);
                    assert((sa as i32) as int == sa as int);
                    assert((sb as i32) as int == sb as int);
                    assert forall|j: int| 0 <= j < out@.len() implies 0 <= (#[trigger] out@[j]).0 < out@[j].1 <= n by {
                        if j < before.len() {
                            assert(out@[j] == before[j]);
                        }
                    }
                    assert forall|j: int| 0 <= j < out@.len() - 1 implies (#[trigger] out@[j]).1 <= out@[j + 1].0 by {
                        if j < before.len() - 1 {
                            assert(out@[j] == before[j]);
                            assert(out@[j + 1] == before[j + 1]);
                        } else {
                            assert(out@[j] == before.last());
                        }
                    }
                }
            }
        }
        k += 1;
    }
    proof {
        assert(spans@.take(spans@.len() as int) =~= spans@);
    }
    out
}

/// Step `cur` by one within `0..len`, clamped, no wrap: `Some` of the
/// neighbouring index when it lies in `0..len`, `None` when it cannot move
/// (empty, or the step would leave `0..len`).
pub fn step(cur: usize, len: usize, forward: bool) -> (r: Option<usize>)
    ensures
        r == (if len == 0 {
            None::<usize>
        } else if forward {
            if cur + 1 < len { Some((cur + 1) as usize) } else { None::<usize> }
        } else if 0 < cur && cur - 1 < len {
            Some((cur - 1) as usize)
        } else {
            None::<usize>
        }),
        r matches Some(i) ==> i < len && (if forward { i == cur + 1 } else { i + 1 == cur }),
{
    if len == 0 {
        return None;
    }
    if forward {
        if cur < len - 1 { Some(cur + 1) } else { None }
    } else if cur > 0 && cur - 1 < len {
        Some(cur - 1)
    } else {
        None
    }
}

/// A live search over one overlay buffer: the pattern, the character spans
/// of every match (in document order), and the current match index.
#[derive(Debug, Clone)]
pub struct OverlaySearch {
    pub pattern: String,
    pub matches: Vec<(i32, i32)>,
    pub current: usize,
}

impl Default for OverlaySearch {
    /// No pattern, no matches, index 0.
    fn default() -> (r: Self)
        ensures
            r.pattern@ == Seq::<char>::empty(),
            r.matches@ == Seq::<(i32, i32)>::empty(),
            r.current == 0,
    {
        OverlaySearch { pattern: String::new(), matches: Vec::new(), current: 0 }
    }
}

} // verus!

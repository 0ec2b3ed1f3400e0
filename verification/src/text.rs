//! Text helpers: decimal rendering of integers (with the lemmas that make the
//! rendered text parseable again), string equality, white-space trimming, and
//! infix search.

use vstd::prelude::*;

verus! {

/// The ASCII digit for `d` (meaningful for `d < 10`).
pub open spec fn digit_char(d: nat) -> char {
    if d == 0 {
        '0'
    } else if d == 1 {
        '1'
    } else if d == 2 {
        '2'
    } else if d == 3 {
        '3'
    } else if d == 4 {
        '4'
    } else if d == 5 {
        '5'
    } else if d == 6 {
        '6'
    } else if d == 7 {
        '7'
    } else if d == 8 {
        '8'
    } else {
        '9'
    }
}

/// True for the ten ASCII digits.
pub open spec fn is_digit(c: char) -> bool {
    '0' <= c && c <= '9'
}

/// The decimal text of a natural number, most significant digit first, with no
/// leading zeros.
pub open spec fn decimal_nat(n: nat) -> Seq<char>
    decreases n,
{
    if n < 10 {
        seq![digit_char(n)]
    } else {
        decimal_nat(n / 10) + seq![digit_char(n % 10)]
    }
}

/// The decimal text of an integer: a leading `-` for negatives.
pub open spec fn decimal_int(n: int) -> Seq<char> {
    if n < 0 {
        seq!['-'] + decimal_nat((-n) as nat)
    } else {
        decimal_nat(n as nat)
    }
}

/// Every character of a natural number's decimal text is a digit.
pub proof fn lemma_decimal_nat_digits(n: nat)
    ensures
        decimal_nat(n).len() >= 1,
        forall|i: int| 0 <= i < decimal_nat(n).len() ==> is_digit(#[trigger] decimal_nat(n)[i]),
    decreases n,
{
    if n >= 10 {
        lemma_decimal_nat_digits(n / 10);
        let a = decimal_nat(n / 10);
        let b = seq![digit_char(n % 10)];
        assert forall|i: int| 0 <= i < decimal_nat(n).len() implies is_digit(
            #[trigger] decimal_nat(n)[i],
        ) by {
            if i < a.len() {
                assert(decimal_nat(n)[i] == a[i]);
            } else {
                assert(decimal_nat(n)[i] == b[i - a.len()]);
            }
        }
    }
}

/// Every character of an integer's decimal text is a digit or `-`.
pub proof fn lemma_decimal_int_chars(n: int)
    ensures
        forall|i: int|
            0 <= i < decimal_int(n).len() ==> (is_digit(#[trigger] decimal_int(n)[i])
                || decimal_int(n)[i] == '-'),
{
    if n < 0 {
        lemma_decimal_nat_digits((-n) as nat);
        let d = decimal_nat((-n) as nat);
        assert forall|i: int| 0 <= i < decimal_int(n).len() implies (is_digit(
            #[trigger] decimal_int(n)[i],
        ) || decimal_int(n)[i] == '-') by {
            if i > 0 {
                assert(decimal_int(n)[i] == d[i - 1]);
            }
        }
    } else {
        lemma_decimal_nat_digits(n as nat);
    }
}

proof fn lemma_digit_char_injective(a: nat, b: nat)
    requires
        a < 10,
        b < 10,
        digit_char(a) == digit_char(b),
    ensures
        a == b,
{
}

/// Distinct natural numbers have distinct decimal texts.
pub proof fn lemma_decimal_nat_injective(n: nat, m: nat)
    requires
        decimal_nat(n) == decimal_nat(m),
    ensures
        n == m,
    decreases n,
{
    if n < 10 && m < 10 {
        assert(decimal_nat(n)[0] == digit_char(n));
        assert(decimal_nat(m)[0] == digit_char(m));
        lemma_digit_char_injective(n, m);
    } else if n < 10 {
        lemma_decimal_nat_digits(m / 10);
        assert(decimal_nat(m).len() >= 2);
    } else if m < 10 {
        lemma_decimal_nat_digits(n / 10);
        assert(decimal_nat(n).len() >= 2);
    } else {
        let a = decimal_nat(n);
        let b = decimal_nat(m);
        assert(a.last() == digit_char(n % 10));
        assert(b.last() == digit_char(m % 10));
        lemma_digit_char_injective(n % 10, m % 10);
        assert(decimal_nat(n / 10) =~= a.drop_last());
        assert(decimal_nat(m / 10) =~= b.drop_last());
        lemma_decimal_nat_injective(n / 10, m / 10);
    }
}

/// Distinct integers have distinct decimal texts.
pub proof fn lemma_decimal_int_injective(n: int, m: int)
    requires
        decimal_int(n) == decimal_int(m),
    ensures
        n == m,
{
    if n < 0 && m < 0 {
        assert(decimal_nat((-n) as nat) =~= decimal_int(n).drop_first());
        assert(decimal_nat((-m) as nat) =~= decimal_int(m).drop_first());
        lemma_decimal_nat_injective((-n) as nat, (-m) as nat);
    } else if n < 0 {
        lemma_decimal_nat_digits(m as nat);
        assert(decimal_int(m)[0] == decimal_int(n)[0]);
        assert(is_digit(decimal_nat(m as nat)[0]));
    } else if m < 0 {
        lemma_decimal_nat_digits(n as nat);
        assert(decimal_int(m)[0] == decimal_int(n)[0]);
        assert(is_digit(decimal_nat(n as nat)[0]));
    } else {
        lemma_decimal_nat_injective(n as nat, m as nat);
    }
}

/// The one-character text of digit `d`.
fn digit_str(d: u64) -> (r: &'static str)
    requires
        d < 10,
    ensures
        r@ == seq![digit_char(d as nat)],
{
    if d == 0 {
        proof {
            reveal_strlit("0");
        }
        "0"
    } else if d == 1 {
        proof {
            reveal_strlit("1");
        }
        "1"
    } else if d == 2 {
        proof {
            reveal_strlit("2");
        }
        "2"
    } else if d == 3 {
        proof {
            reveal_strlit("3");
        }
        "3"
    } else if d == 4 {
        proof {
            reveal_strlit("4");
        }
        "4"
    } else if d == 5 {
        proof {
            reveal_strlit("5");
        }
        "5"
    } else if d == 6 {
        proof {
            reveal_strlit("6");
        }
        "6"
    } else if d == 7 {
        proof {
            reveal_strlit("7");
        }
        "7"
    } else if d == 8 {
        proof {
            reveal_strlit("8");
        }
        "8"
    } else {
        proof {
            reveal_strlit("9");
        }
        "9"
    }
}

/// Append the decimal text of `n` to `s`.
pub fn push_decimal_u128(s: &mut String, n: u128)
    ensures
        final(s)@ == old(s)@ + decimal_nat(n as nat),
    decreases n,
{
    if n >= 10 {
        push_decimal_u128(s, n / 10);
    }
    let d = digit_str((n % 10) as u64);
    s.append(d);
    proof {
        if n >= 10 {
            assert(old(s)@ + decimal_nat(n as nat) =~= old(s)@ + decimal_nat((n / 10) as nat)
                + seq![digit_char((n % 10) as nat)]);
        } else {
            assert(n % 10 == n);
        }
    }
}

/// Append the decimal text of `n` (with a `-` when negative) to `s`.
pub fn push_decimal_i128(s: &mut String, n: i128)
    ensures
        final(s)@ == old(s)@ + decimal_int(n as int),
{
    if n < 0 {
        proof {
            reveal_strlit("-");
        }
        s.append("-");
        let m: i128 = -(n + 1);
        let mag: u128 = m as u128 + 1;
        push_decimal_u128(s, mag);
        proof {
            assert(old(s)@ + decimal_int(n as int) =~= old(s)@ + seq!['-'] + decimal_nat(
                mag as nat,
            ));
        }
    } else {
        push_decimal_u128(s, n as u128);
    }
}

/// `[a, b, c]`: the decimal texts of a list, comma-separated in brackets.
pub open spec fn list_text(v: Seq<usize>) -> Seq<char> {
    "["@ + list_body(v) + "]"@
}

/// The comma-separated decimal texts of a list.
pub open spec fn list_body(v: Seq<usize>) -> Seq<char>
    decreases v.len(),
{
    if v.len() == 0 {
        Seq::empty()
    } else if v.len() == 1 {
        decimal_nat(v[0] as nat)
    } else {
        list_body(v.drop_last()) + ", "@ + decimal_nat(v.last() as nat)
    }
}

/// Append `[a, b, c]` for the list `v` to `s`.
pub fn push_list(s: &mut String, v: &Vec<usize>)
    ensures
        final(s)@ == old(s)@ + list_text(v@),
{
    s.append("[");
    let mut k: usize = 0;
    while k < v.len()
        invariant
            k <= v@.len(),
            s@ == old(s)@ + "["@ + list_body(v@.take(k as int)),
        decreases v@.len() - k,
    {
        if k > 0 {
            s.append(", ");
        }
        push_decimal_u128(s, v[k] as u128);
        proof {
            let t = v@.take(k + 1);
            assert(t.drop_last() =~= v@.take(k as int));
            assert(t.last() == v@[k as int]);
            if k == 0 {
                assert(list_body(v@.take(0)) =~= Seq::<char>::empty());
            }
        }
        k += 1;
    }
    s.append("]");
    proof {
        assert(v@.take(v@.len() as int) =~= v@);
    }
}

/// The decimal text of `n` as a fresh string.
pub fn decimal_string(n: u64) -> (r: String)
    ensures
        r@ == decimal_nat(n as nat),
{
    let mut s = String::new();
    push_decimal_u128(&mut s, n as u128);
    proof {
        assert(Seq::<char>::empty() + decimal_nat(n as nat) =~= decimal_nat(n as nat));
    }
    s
}

/// Character-by-character equality of two string slices.
pub fn str_eq(a: &str, b: &str) -> (r: bool)
    ensures
        r == (a@ == b@),
{
    let n = a.unicode_len();
    if n != b.unicode_len() {
        return false;
    }
    let mut i: usize = 0;
    while i < n
        invariant
            n == a@.len(),
            n == b@.len(),
            i <= n,
            forall|j: int| 0 <= j < i ==> a@[j] == b@[j],
        decreases n - i,
    {
        if a.get_char(i) != b.get_char(i) {
            return false;
        }
        i += 1;
    }
    proof {
        assert(a@ =~= b@);
    }
    true
}

/// A Unicode `White_Space` character (what `char::is_whitespace` accepts).
pub open spec fn is_white_space(c: char) -> bool {
    ('\u{9}' <= c && c <= '\u{d}') || c == ' ' || c == '\u{85}' || c == '\u{a0}' || c == '\u{1680}'
        || ('\u{2000}' <= c && c <= '\u{200a}') || c == '\u{2028}' || c == '\u{2029}' || c == '\u{202f}'
        || c == '\u{205f}' || c == '\u{3000}'
}

pub fn white_space(c: char) -> (r: bool)
    ensures
        r == is_white_space(c),
{
    ('\u{9}' <= c && c <= '\u{d}') || c == ' ' || c == '\u{85}' || c == '\u{a0}' || c == '\u{1680}'
        || ('\u{2000}' <= c && c <= '\u{200a}') || c == '\u{2028}' || c == '\u{2029}' || c == '\u{202f}'
        || c == '\u{205f}' || c == '\u{3000}'
}

/// The first index at or after `i` that is not white space (or the length).
pub open spec fn trim_lo(s: Seq<char>, i: int) -> int
    decreases s.len() - i,
{
    if i >= s.len() || i < 0 {
        s.len() as int
    } else if is_white_space(s[i]) {
        trim_lo(s, i + 1)
    } else {
        i
    }
}

/// The end of the text before `j` once trailing white space is dropped (not
/// below `lo`).
pub open spec fn trim_hi(s: Seq<char>, j: int, lo: int) -> int
    decreases j - lo,
{
    if j <= lo {
        lo
    } else if is_white_space(s[j - 1]) {
        trim_hi(s, j - 1, lo)
    } else {
        j
    }
}

/// `s` without leading and trailing white space.
pub open spec fn trimmed(s: Seq<char>) -> Seq<char> {
    let lo = trim_lo(s, 0);
    s.subrange(lo, trim_hi(s, s.len() as int, lo))
}

pub proof fn lemma_trim_lo_range(s: Seq<char>, i: int)
    requires
        0 <= i <= s.len(),
    ensures
        i <= trim_lo(s, i) <= s.len(),
    decreases s.len() - i,
{
    if i < s.len() {
        lemma_trim_lo_range(s, i + 1);
    }
}

pub proof fn lemma_trim_hi_range(s: Seq<char>, j: int, lo: int)
    requires
        lo <= j,
    ensures
        lo <= trim_hi(s, j, lo) <= j,
    decreases j - lo,
{
    if j > lo {
        lemma_trim_hi_range(s, j - 1, lo);
    }
}


/// The bounds of `t` without its leading and trailing white space.
pub fn trim_bounds(t: &str) -> (r: (usize, usize))
    ensures
        r.0 == trim_lo(t@, 0),
        r.1 == trim_hi(t@, t@.len() as int, r.0 as int),
        r.0 <= r.1 <= t@.len(),
        trimmed(t@) == t@.subrange(r.0 as int, r.1 as int),
{
    let n = t.unicode_len();
    let mut lo: usize = 0;
    while lo < n && white_space(t.get_char(lo))
        invariant
            n == t@.len(),
            lo <= n,
            trim_lo(t@, 0) == trim_lo(t@, lo as int),
        decreases n - lo,
    {
        lo += 1;
    }
    let mut hi: usize = n;
    while hi > lo && white_space(t.get_char(hi - 1))
        invariant
            n == t@.len(),
            lo <= hi <= n,
            trim_lo(t@, 0) == lo,
            trim_hi(t@, n as int, lo as int) == trim_hi(t@, hi as int, lo as int),
        decreases hi,
    {
        hi -= 1;
    }
    (lo, hi)
}

/// `t` without its leading and trailing white space.
pub fn trim(t: &str) -> (r: &str)
    ensures
        r@ == trimmed(t@),
{
    let (lo, hi) = trim_bounds(t);
    t.substring_char(lo, hi)
}

/// `p` occurs in `s` at `i`.
pub open spec fn occurs_at(s: Seq<char>, p: Seq<char>, i: int) -> bool {
    0 <= i && i + p.len() <= s.len() && s.subrange(i, i + p.len()) == p
}

/// `p` occurs somewhere in `s`.
pub open spec fn has_infix(s: Seq<char>, p: Seq<char>) -> bool {
    exists|i: int| occurs_at(s, p, i)
}

fn occurs_at_exec(s: &str, p: &str, i: usize, n: usize) -> (r: bool)
    requires
        n == s@.len(),
        i + p@.len() <= s@.len(),
    ensures
        r == occurs_at(s@, p@, i as int),
{
    let m = p.unicode_len();
    let mut k: usize = 0;
    while k < m
        invariant
            m == p@.len(),
            n == s@.len(),
            i + m <= s@.len(),
            k <= m,
            forall|j: int| 0 <= j < k ==> s@[i + j] == p@[j],
        decreases m - k,
    {
        if s.get_char(i + k) != p.get_char(k) {
            proof {
                assert(s@.subrange(i as int, i + m)[k as int] != p@[k as int]);
            }
            return false;
        }
        k += 1;
    }
    proof {
        assert(s@.subrange(i as int, i + m) =~= p@);
    }
    true
}

/// Whether `p` occurs in `s`.
pub fn contains_str(s: &str, p: &str) -> (r: bool)
    ensures
        r == has_infix(s@, p@),
{
    let n = s.unicode_len();
    let m = p.unicode_len();
    if m > n {
        proof {
            assert forall|i: int| !occurs_at(s@, p@, i) by {}
        }
        return false;
    }
    let mut i: usize = 0;
    let last = n - m;
    loop
        invariant
            n == s@.len(),
            m == p@.len(),
            m <= n,
            last == n - m,
            i <= last,
            forall|j: int| 0 <= j < i ==> !occurs_at(s@, p@, j),
        ensures
            forall|j: int| 0 <= j <= last ==> !occurs_at(s@, p@, j),
        decreases last - i,
    {
        if occurs_at_exec(s, p, i, n) {
            return true;
        }
        if i == last {
            break;
        }
        i += 1;
    }
    proof {
        assert forall|j: int| !occurs_at(s@, p@, j) by {
            if j > last {
                assert(j + m > n);
            }
        }
    }
    false
}

/// The lowercase form of `s` (Unicode `Lowercase` mapping).
pub uninterp spec fn lowercased(s: Seq<char>) -> Seq<char>;

/// Calls `str::to_lowercase`, whose result is the lowercase form of `s`
/// under the Unicode `Lowercase` mapping, a function of `s` alone. Nothing
/// more is claimed of it.
#[verifier::external_body]
pub(crate) fn to_lowercase(s: &str) -> (r: String)
    ensures
        r@ == lowercased(s@),
{
    s.to_lowercase()
}

} // verus!

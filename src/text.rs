use vstd::prelude::*;
use vstd::string::*;

verus! {

/// The characters that `char::is_whitespace` accepts: those with the Unicode
/// `White_Space` property.
pub open spec fn is_white(c: char) -> bool {
    ('\u{9}' <= c && c <= '\u{d}') || c == ' ' || c == '\u{85}' || c == '\u{a0}'
        || c == '\u{1680}' || ('\u{2000}' <= c && c <= '\u{200a}') || c == '\u{2028}'
        || c == '\u{2029}' || c == '\u{202f}' || c == '\u{205f}' || c == '\u{3000}'
}

/// Text that holds nothing but white space (the empty text included).
pub open spec fn is_blank_text(s: Seq<char>) -> bool {
    forall|i: int| 0 <= i < s.len() ==> is_white(#[trigger] s[i])
}

pub open spec fn is_digit(c: char) -> bool {
    '0' <= c && c <= '9'
}

pub open spec fn digit_value(c: char) -> int {
    (c as int) - ('0' as int)
}

/// The number written by a run of decimal digits.
pub open spec fn digits_value(s: Seq<char>) -> int
    decreases s.len(),
{
    if s.len() == 0 {
        0
    } else {
        digits_value(s.drop_last()) * 10 + digit_value(s.last())
    }
}

pub open spec fn all_digits(s: Seq<char>) -> bool {
    forall|i: int| 0 <= i < s.len() ==> is_digit(#[trigger] s[i])
}

/// Whether the text starts with a sign.
pub open spec fn sign_len(s: Seq<char>) -> int {
    if s.len() > 0 && (s[0] == '+' || s[0] == '-') {
        1
    } else {
        0
    }
}

/// The digits of an integer as `i64::from_str` reads it: what follows an
/// optional `+` or `-`.
pub open spec fn integer_digits(s: Seq<char>) -> Seq<char> {
    s.subrange(sign_len(s), s.len() as int)
}

/// The integer that `i64::from_str` reads from the text: an optional sign,
/// at least one decimal digit and nothing else, within the range of `i64`.
pub open spec fn integer_value(s: Seq<char>) -> Option<int> {
    let d = integer_digits(s);
    let v = if s.len() > 0 && s[0] == '-' { -digits_value(d) } else { digits_value(d) };
    if d.len() > 0 && all_digits(d) && i64::MIN <= v <= i64::MAX {
        Some(v)
    } else {
        None
    }
}

proof fn lemma_digits_value_nonneg(s: Seq<char>)
    requires
        all_digits(s),
    ensures
        digits_value(s) >= 0,
    decreases s.len(),
{
    if s.len() > 0 {
        lemma_digits_value_nonneg(s.drop_last());
    }
}

/// A longer run of digits is worth at least as much as its prefix.
proof fn lemma_digits_value_prefix(s: Seq<char>, k: int)
    requires
        all_digits(s),
        0 <= k <= s.len(),
    ensures
        digits_value(s.subrange(0, k)) <= digits_value(s),
    decreases s.len() - k,
{
    if k < s.len() {
        lemma_digits_value_prefix(s, k + 1);
        let p = s.subrange(0, k + 1);
        assert(p.drop_last() =~= s.subrange(0, k));
        lemma_digits_value_nonneg(s.subrange(0, k));
    } else {
        assert(s.subrange(0, k) =~= s);
    }
}

/// Whether the character is white space in the sense of `char::is_whitespace`.
pub fn is_white_char(c: char) -> (r: bool)
    ensures
        r == is_white(c),
{
    ('\u{9}' <= c && c <= '\u{d}') || c == ' ' || c == '\u{85}' || c == '\u{a0}'
        || c == '\u{1680}' || ('\u{2000}' <= c && c <= '\u{200a}') || c == '\u{2028}'
        || c == '\u{2029}' || c == '\u{202f}' || c == '\u{205f}' || c == '\u{3000}'
}

/// Whether the text holds nothing but white space.
pub fn is_blank(s: &Vec<char>) -> (r: bool)
    ensures
        r == is_blank_text(s@),
{
    let mut i: usize = 0;
    while i < s.len()
        invariant
            0 <= i <= s.len(),
            forall|j: int| 0 <= j < i ==> is_white(#[trigger] s@[j]),
        decreases s.len() - i,
    {
        if !is_white_char(s[i]) {
            return false;
        }
        i = i + 1;
    }
    true
}

/// Reads an integer as `i64::from_str` does: an optional `+` or `-`, then
/// decimal digits, within the range of `i64`; `None` for any other text.
pub fn parse_integer(s: &Vec<char>) -> (r: Option<i64>)
    ensures
        r matches Some(v) ==> integer_value(s@) == Some(v as int),
        r is None ==> integer_value(s@) is None,
{
    let negative = s.len() > 0 && s[0] == '-';
    let start: usize = if s.len() > 0 && (s[0] == '+' || s[0] == '-') { 1 } else { 0 };
    let bound: u64 = if negative { 9223372036854775808u64 } else { 9223372036854775807u64 };
    let ghost digits = integer_digits(s@);
    assert(digits =~= s@.subrange(start as int, s@.len() as int));
    if start >= s.len() {
        return None;
    }
    let mut v: u64 = 0;
    let mut i: usize = start;
    while i < s.len()
        invariant
            start <= i <= s.len(),
            digits == integer_digits(s@),
            digits =~= s@.subrange(start as int, s@.len() as int),
            all_digits(digits.subrange(0, i - start)),
            v as int == digits_value(digits.subrange(0, i - start)),
            v <= bound,
            bound == if negative { 9223372036854775808u64 } else { 9223372036854775807u64 },
            negative == (s@.len() > 0 && s@[0] == '-'),
        decreases s.len() - i,
    {
        let c = s[i];
        if !('0' <= c && c <= '9') {
            assert(digits[i - start] == s@[i as int]);
            assert(!is_digit(digits[i - start]));
            assert(!all_digits(digits));
            return None;
        }
        let d = (c as u64) - ('0' as u64);
        let ghost k = i - start;
        assert(digits.subrange(0, k + 1).drop_last() =~= digits.subrange(0, k));
        assert(digits.subrange(0, k + 1).last() == c);
        assert(digits[k] == c);
        assert(digits_value(digits.subrange(0, k + 1)) == v * 10 + d);
        assert(all_digits(digits.subrange(0, k + 1))) by {
            assert forall|j: int| 0 <= j < k + 1 implies is_digit(
                #[trigger] digits.subrange(0, k + 1)[j],
            ) by {
                if j < k {
                    assert(digits.subrange(0, k + 1)[j] == digits.subrange(0, k)[j]);
                }
            }
        }
        if v > (bound - d) / 10 {
            proof {
                assert(digits_value(digits.subrange(0, k + 1)) > bound) by (nonlinear_arith)
                    requires
                        digits_value(digits.subrange(0, k + 1)) == v * 10 + d,
                        v > (bound - d) / 10,
                        d <= 9,
                        d <= bound,
                ;
                if all_digits(digits) {
                    lemma_digits_value_prefix(digits, k + 1);
                    assert(digits_value(digits) > bound);
                    if negative {
                        assert(s@[0] == '-');
                        assert(-digits_value(digits) < i64::MIN);
                    } else {
                        assert(!(s@.len() > 0 && s@[0] == '-'));
                        assert(digits_value(digits) > i64::MAX);
                    }
                }
                assert(integer_value(s@) is None);
            }
            return None;
        }
        assert(v * 10 + d <= bound) by (nonlinear_arith)
            requires
                v <= (bound - d) / 10,
                d <= 9,
                d <= bound,
        ;
        v = v * 10 + d;
        i = i + 1;
    }
    assert(digits.subrange(0, i - start) =~= digits);
    if negative {
        if v == 9223372036854775808u64 {
            Some(i64::MIN)
        } else {
            Some(-(v as i64))
        }
    } else {
        Some(v as i64)
    }
}

/// `a` comes strictly before `b` in lexicographic order by character, the
/// order of `Ord for String`.
pub open spec fn text_lt(a: Seq<char>, b: Seq<char>) -> bool {
    exists|k: int| #[trigger] first_split(a, b, k) && (
        (k == a.len() && k < b.len()) || (k < a.len() && k < b.len() && a[k] < b[k]))
}

/// `a` and `b` agree on their first `k` characters and `k` is the length of
/// one of them or the first place where they differ.
pub open spec fn first_split(a: Seq<char>, b: Seq<char>, k: int) -> bool {
    &&& 0 <= k <= a.len()
    &&& k <= b.len()
    &&& forall|j: int| 0 <= j < k ==> a[j] == b[j]
    &&& (k == a.len() || k == b.len() || a[k] != b[k])
}

/// Whether `a` comes strictly before `b` in lexicographic order by character.
pub fn text_less(a: &String, b: &String) -> (r: bool)
    ensures
        r == text_lt(a@, b@),
{
    let sa = a.as_str();
    let sb = b.as_str();
    let la = sa.unicode_len();
    let lb = sb.unicode_len();
    let mut i: usize = 0;
    while i < la && i < lb
        invariant
            la == a@.len(),
            lb == b@.len(),
            sa@ == a@,
            sb@ == b@,
            0 <= i <= la,
            i <= lb,
            forall|j: int| 0 <= j < i ==> a@[j] == b@[j],
        decreases la - i,
    {
        let ca = sa.get_char(i);
        let cb = sb.get_char(i);
        if ca != cb {
            let r = ca < cb;
            proof {
                assert(first_split(a@, b@, i as int));
                lemma_first_split_unique(a@, b@, i as int);
            }
            return r;
        }
        i = i + 1;
    }
    proof {
        assert(first_split(a@, b@, i as int));
        lemma_first_split_unique(a@, b@, i as int);
    }
    i == la && i < lb
}

proof fn lemma_first_split_unique(a: Seq<char>, b: Seq<char>, k: int)
    requires
        first_split(a, b, k),
    ensures
        forall|m: int| #[trigger] first_split(a, b, m) ==> m == k,
{
    assert forall|m: int| #[trigger] first_split(a, b, m) implies m == k by {
        if m < k {
            assert(a[m] == b[m]);
        } else if m > k {
            assert(a[k] == b[k]);
        }
    }
}

proof fn lemma_first_split_exists(a: Seq<char>, b: Seq<char>, k: int)
    requires
        0 <= k <= a.len(),
        k <= b.len(),
        forall|j: int| 0 <= j < k ==> a[j] == b[j],
    ensures
        exists|m: int| #[trigger] first_split(a, b, m),
    decreases a.len() - k,
{
    if k == a.len() || k == b.len() || a[k] != b[k] {
        assert(first_split(a, b, k));
    } else {
        lemma_first_split_exists(a, b, k + 1);
    }
}

/// Two texts are equal or one comes strictly before the other.
pub proof fn lemma_text_trichotomy(a: Seq<char>, b: Seq<char>)
    ensures
        a == b || text_lt(a, b) || text_lt(b, a),
        !(text_lt(a, b) && text_lt(b, a)),
        !text_lt(a, a),
{
    lemma_first_split_exists(a, b, 0);
    let m = choose|m: int| #[trigger] first_split(a, b, m);
    lemma_first_split_unique(a, b, m);
    assert(first_split(b, a, m));
    lemma_first_split_unique(b, a, m);
    if m == a.len() && m == b.len() {
        assert(a =~= b);
    } else if m == a.len() {
        assert(text_lt(a, b));
    } else if m == b.len() {
        assert(text_lt(b, a));
    } else if a[m] < b[m] {
        assert(text_lt(a, b));
    } else {
        assert(text_lt(b, a));
    }
    lemma_first_split_exists(a, a, 0);
    let n = choose|n: int| #[trigger] first_split(a, a, n);
    lemma_first_split_unique(a, a, n);
}

/// Relies on `FromIterator<char> for String`: the string holds the given
/// characters in order.
#[verifier::external_body]
pub fn string_from_chars(v: &Vec<char>) -> (r: String)
    ensures
        r@ == v@,
{
    v.iter().collect()
}

} // verus!

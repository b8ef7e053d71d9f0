//! Text helpers shared by the request and feed rules.
use vstd::prelude::*;
use vstd::string::*;

verus! {

/// The lowercase form of a text, as Unicode defines it.
pub uninterp spec fn lowercased(s: Seq<char>) -> Seq<char>;

/// A text without its leading and trailing white space.
pub uninterp spec fn trimmed(s: Seq<char>) -> Seq<char>;

/// The value of a decimal digit.
pub open spec fn digit_value(c: char) -> Option<int> {
    if '0' <= c <= '9' {
        Some(c as int - '0' as int)
    } else {
        None
    }
}

/// The number that a row of decimal digits denotes; nothing for an empty
/// row or one that holds anything but digits.
pub open spec fn decimal_value(s: Seq<char>) -> Option<int>
    decreases s.len(),
{
    if s.len() == 0 {
        None
    } else {
        match digit_value(s.last()) {
            None => None,
            Some(d) => if s.len() == 1 {
                Some(d)
            } else {
                match decimal_value(s.drop_last()) {
                    Some(v) => Some(v * 10 + d),
                    None => None,
                }
            },
        }
    }
}

/// The whole number that a text denotes: digits, with `+` or `-` allowed
/// in front of them and nothing else anywhere.
pub open spec fn signed_value(s: Seq<char>) -> Option<int> {
    if s.len() > 0 && s[0] == '+' {
        decimal_value(s.drop_first())
    } else if s.len() > 0 && s[0] == '-' {
        match decimal_value(s.drop_first()) {
            Some(v) => Some(-v),
            None => None,
        }
    } else {
        decimal_value(s)
    }
}

/// The signed integer that a decimal text denotes, if it denotes one that
/// fits 64 bits.
pub open spec fn i64_from_text(s: Seq<char>) -> Option<i64> {
    match signed_value(s) {
        Some(v) => if i64::MIN <= v <= i64::MAX {
            Some(v as i64)
        } else {
            None
        },
        None => None,
    }
}

/// The unsigned integer that a decimal text denotes, if it denotes one that
/// fits 64 bits. A text that starts with `-` denotes none, not even zero.
pub open spec fn u64_from_text(s: Seq<char>) -> Option<u64> {
    if s.len() > 0 && s[0] == '-' {
        None
    } else {
        match signed_value(s) {
            Some(v) => if v <= u64::MAX {
                Some(v as u64)
            } else {
                None
            },
            None => None,
        }
    }
}

/// The position of the first comma in `s`, or the length of `s` without one.
pub open spec fn first_comma(s: Seq<char>) -> int
    decreases s.len(),
{
    if s.len() == 0 {
        0
    } else if s[0] == ',' {
        0
    } else {
        1 + first_comma(s.drop_first())
    }
}

/// The pieces of `s` between its commas, in order. A text without a comma is
/// one piece, so the result is never empty.
pub open spec fn comma_pieces(s: Seq<char>) -> Seq<Seq<char>>
    decreases s.len(),
{
    let k = first_comma(s);
    if 0 <= k < s.len() {
        seq![s.subrange(0, k)] + comma_pieces(s.subrange(k + 1, s.len() as int))
    } else {
        seq![s]
    }
}

/// The views of a list of strings.
pub open spec fn views_of(v: Seq<String>) -> Seq<Seq<char>> {
    Seq::new(v.len(), |i: int| v[i]@)
}

/// `str::to_lowercase`.
#[verifier::external_body]
pub(crate) fn lowercase(s: &str) -> (r: String)
    ensures
        r@ == lowercased(s@),
{
    s.to_lowercase()
}

/// `str::trim`.
#[verifier::external_body]
pub(crate) fn trim<'a>(s: &'a str) -> (r: &'a str)
    ensures
        r@ == trimmed(s@),
{
    s.trim()
}

/// Where no comma stands before position `k` of `t`, and one stands there
/// or `t` ends there, `k` is the position of the first comma.
proof fn lemma_first_comma(t: Seq<char>, k: int)
    requires
        0 <= k <= t.len(),
        forall|j: int| 0 <= j < k ==> t[j] != ',',
        k == t.len() || t[k] == ',',
    ensures
        first_comma(t) == k,
    decreases k,
{
    if k > 0 {
        let r = t.drop_first();
        assert forall|j: int| 0 <= j < k - 1 implies r[j] != ',' by {
            assert(r[j] == t[j + 1]);
        }
        if k < t.len() {
            assert(r[k - 1] == t[k]);
        }
        lemma_first_comma(r, k - 1);
    }
}

/// Splits a text at its commas: every piece between commas, empty ones
/// included, in the order in which they stand.
pub fn split_commas(s: &str) -> (r: Vec<String>)
    ensures
        views_of(r@) == comma_pieces(s@),
{
    let n = s.unicode_len();
    let mut out: Vec<String> = Vec::new();
    let mut start: usize = 0;
    let mut i: usize = 0;
    proof {
        assert(s@.subrange(0, n as int) =~= s@);
        assert(views_of(out@) + comma_pieces(s@) =~= comma_pieces(s@));
    }
    while i < n
        invariant
            n == s@.len(),
            start <= i <= n,
            forall|j: int| start <= j < i ==> s@[j] != ',',
            comma_pieces(s@) == views_of(out@) + comma_pieces(s@.subrange(start as int, n as int)),
        decreases n - i,
    {
        if s.get_char(i) == ',' {
            let piece = String::from_str(s.substring_char(start, i));
            proof {
                let t = s@.subrange(start as int, n as int);
                let rest = s@.subrange(i + 1, n as int);
                lemma_first_comma(t, i - start);
                assert(t.subrange(0, i - start) =~= piece@);
                assert(t.subrange(i - start + 1, t.len() as int) =~= rest);
                assert(comma_pieces(t) == seq![piece@] + comma_pieces(rest));
                assert(views_of(out@.push(piece)) =~= views_of(out@).push(piece@));
                assert(views_of(out@).push(piece@) + comma_pieces(rest) =~= views_of(out@) + (
                seq![piece@] + comma_pieces(rest)));
            }
            out.push(piece);
            start = i + 1;
        }
        i = i + 1;
    }
    let piece = String::from_str(s.substring_char(start, n));
    proof {
        let t = s@.subrange(start as int, n as int);
        lemma_first_comma(t, n - start);
        assert(comma_pieces(t) == seq![t]);
        assert(views_of(out@.push(piece)) =~= views_of(out@).push(piece@));
        assert(views_of(out@).push(piece@) =~= views_of(out@) + seq![t]);
    }
    out.push(piece);
    out
}

/// `str::parse::<i64>`: an optional sign and then decimal digits only; the
/// number they denote when it fits, nothing on any parse error.
#[verifier::external_body]
pub(crate) fn parse_i64(s: &str) -> (r: Option<i64>)
    ensures
        r == i64_from_text(s@),
{
    s.parse::<i64>().ok()
}

/// `str::parse::<u64>`: an optional `+` and then decimal digits only; the
/// number they denote when it fits, nothing on any parse error.
#[verifier::external_body]
pub(crate) fn parse_u64(s: &str) -> (r: Option<u64>)
    ensures
        r == u64_from_text(s@),
{
    s.parse::<u64>().ok()
}

/// Whether two texts hold the same characters.
pub fn same_text(a: &str, b: &str) -> (r: bool)
    ensures
        r == (a@ == b@),
{
    let x = String::from_str(a);
    let y = String::from_str(b);
    x == y
}

} // verus!

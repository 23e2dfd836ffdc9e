//! Recognising the novel pages of the supported site and pulling the novel id
//! out of their addresses.
use vstd::prelude::*;

verus! {

/// The first capture group of the first match of regular expression
/// `pattern` in `text`; `None` when the pattern does not compile, does not
/// match, or its first group takes no part in the match.
pub uninterp spec fn first_capture(pattern: Seq<char>, text: Seq<char>) -> Option<Seq<char>>;

/// Relies on `regex::Regex::new`, `Regex::captures`, `Captures::get` and
/// `Match::as_str`: the text of capture group 1, as the regex crate finds it.
#[verifier::external_body]
fn capture_group_one(pattern: &str, text: &str) -> (r: Option<String>)
    ensures
        match r {
            Some(s) => first_capture(pattern@, text@) == Some(s@),
            None => first_capture(pattern@, text@) is None,
        },
{
    let re = regex::Regex::new(pattern).ok()?;
    re.captures(text)?.get(1).map(|m| m.as_str().to_owned())
}

/// A novel page on either of the site's domains; group 1 is the novel id.
pub open spec fn novel_url_pattern() -> Seq<char> {
    "(?:linovelib|bilinovel)\\.com/novel/(\\d+)"@
}

/// The path of a novel's information page; group 1 is the novel id.
pub open spec fn info_path_pattern() -> Seq<char> {
    "/novel/(\\d+)\\.html$"@
}

/// `r` holds the same text as the optional sequence `s`.
pub open spec fn same_text(r: Option<String>, s: Option<Seq<char>>) -> bool {
    match r {
        Some(t) => s == Some(t@),
        None => s is None,
    }
}

/// The novel id in a URL of the site, as text.
pub fn try_get_novel_id(url: &str) -> (r: Option<String>)
    ensures
        same_text(r, first_capture(novel_url_pattern(), url@)),
{
    capture_group_one("(?:linovelib|bilinovel)\\.com/novel/(\\d+)", url)
}

/// The numeric value of a string of ASCII decimal digits.
pub open spec fn digits_value(s: Seq<char>) -> int
    decreases s.len(),
{
    if s.len() == 0 {
        0
    } else {
        digits_value(s.drop_last()) * 10 + (s.last() as int - '0' as int)
    }
}

pub open spec fn is_ascii_digit(c: char) -> bool {
    '0' <= c && c <= '9'
}

/// What reading `s` as a decimal `i32` gives: `Some` exactly when `s` is a
/// non-empty run of ASCII digits whose value fits.
pub open spec fn decimal_i32(s: Seq<char>) -> Option<int> {
    if s.len() > 0 && (forall|i: int| 0 <= i < s.len() ==> is_ascii_digit(#[trigger] s[i]))
        && digits_value(s) <= i32::MAX {
        Some(digits_value(s))
    } else {
        None
    }
}

proof fn lemma_digits_value_nonneg(s: Seq<char>)
    requires
        forall|i: int| 0 <= i < s.len() ==> is_ascii_digit(#[trigger] s[i]),
    ensures
        digits_value(s) >= 0,
    decreases s.len(),
{
    if s.len() > 0 {
        assert(is_ascii_digit(s[s.len() - 1]));
        lemma_digits_value_nonneg(s.drop_last());
    }
}

proof fn lemma_digits_value_grows(s: Seq<char>, k: int)
    requires
        0 <= k <= s.len(),
        forall|i: int| 0 <= i < s.len() ==> is_ascii_digit(#[trigger] s[i]),
    ensures
        digits_value(s.subrange(0, k)) <= digits_value(s),
    decreases s.len() - k,
{
    if k < s.len() {
        lemma_digits_value_grows(s, k + 1);
        let t = s.subrange(0, k + 1);
        assert(t.drop_last() =~= s.subrange(0, k));
        assert(is_ascii_digit(t.last()));
        assert forall|i: int| 0 <= i < k implies is_ascii_digit(#[trigger] s.subrange(0, k)[i]) by {
            assert(s.subrange(0, k)[i] == s[i]);
        }
        lemma_digits_value_nonneg(s.subrange(0, k));
    } else {
        assert(s.subrange(0, k) =~= s);
    }
}

/// Reads `s` as a non-negative decimal `i32`; see [`decimal_i32`].
pub fn parse_decimal_i32(s: &str) -> (r: Option<i32>)
    ensures
        match r {
            Some(v) => decimal_i32(s@) == Some(v as int),
            None => decimal_i32(s@) is None,
        },
{
    let n = s.unicode_len();
    if n == 0 {
        return None;
    }
    let mut value: i32 = 0;
    let mut i: usize = 0;
    while i < n
        invariant
            n == s@.len(),
            0 <= i <= n,
            0 <= value,
            forall|j: int| 0 <= j < i ==> is_ascii_digit(#[trigger] s@[j]),
            value as int == digits_value(s@.subrange(0, i as int)),
        decreases n - i,
    {
        let c = s.get_char(i);
        let ghost prefix = s@.subrange(0, i as int + 1);
        assert(prefix.drop_last() =~= s@.subrange(0, i as int));
        if !('0' <= c && c <= '9') {
            assert(!is_ascii_digit(s@[i as int]));
            return None;
        }
        let d = (c as u32 - '0' as u32) as i32;
        if value > (i32::MAX - d) / 10 {
            proof {
                // the full value is at least this prefix's, which overflows
                assert(digits_value(prefix) > i32::MAX) by (nonlinear_arith)
                    requires
                        value > (i32::MAX - d) / 10,
                        digits_value(prefix) == value * 10 + d,
                        0 <= d <= 9,
                ;
                if forall|j: int| 0 <= j < n ==> is_ascii_digit(#[trigger] s@[j]) {
                    lemma_digits_value_grows(s@, i as int + 1);
                }
            }
            return None;
        }
        assert(0 <= value * 10 + d <= i32::MAX) by (nonlinear_arith)
            requires
                0 <= value <= (i32::MAX - d) / 10,
                0 <= d <= 9,
        ;
        value = value * 10 + d;
        i = i + 1;
    }
    assert(s@.subrange(0, n as int) =~= s@);
    Some(value)
}

/// The novel id in the path of a novel's information page
/// (`/novel/<id>.html`), when it fits an `i32`.
pub fn get_novel_id(path: &str) -> (r: Option<i32>)
    ensures
        match first_capture(info_path_pattern(), path@) {
            Some(digits) => match r {
                Some(v) => decimal_i32(digits) == Some(v as int),
                None => decimal_i32(digits) is None,
            },
            None => r is None,
        },
{
    match capture_group_one("/novel/(\\d+)\\.html$", path) {
        Some(digits) => parse_decimal_i32(digits.as_str()),
        None => None,
    }
}

} // verus!

use vstd::prelude::*;
use vstd::string::*;

verus! {

/// The character of a decimal digit.
pub open spec fn digit_char(d: nat) -> char
    recommends
        d < 10,
{
    ((d + 48) as u8) as char
}

/// Shortest decimal spelling of `n`.
pub open spec fn decimal(n: nat) -> Seq<char>
    decreases n,
{
    if n < 10 {
        seq![digit_char(n)]
    } else {
        decimal(n / 10) + seq![digit_char(n % 10)]
    }
}

pub open spec fn is_digit(c: char) -> bool {
    '0' <= c && c <= '9'
}

/// A non-empty run of decimal digits.
pub open spec fn is_decimal(s: Seq<char>) -> bool {
    s.len() > 0 && forall|i: int| 0 <= i < s.len() ==> is_digit(#[trigger] s[i])
}

/// The number that a run of decimal digits spells.
pub open spec fn decimal_value(s: Seq<char>) -> nat
    decreases s.len(),
{
    if s.len() == 0 {
        0
    } else {
        10 * decimal_value(s.drop_last()) + (s.last() as nat - 48) as nat
    }
}

/// `url` when it is already absolute, `host` followed by `url` otherwise.
pub open spec fn join_url(host: Seq<char>, url: Seq<char>) -> Seq<char> {
    if "https://"@.is_prefix_of(url) {
        url
    } else {
        host + url
    }
}

fn digit_str(d: u64) -> (r: &'static str)
    requires
        d < 10,
    ensures
        r@ == seq![digit_char(d as nat)],
{
    proof {
        reveal_strlit("0");
        reveal_strlit("1");
        reveal_strlit("2");
        reveal_strlit("3");
        reveal_strlit("4");
        reveal_strlit("5");
        reveal_strlit("6");
        reveal_strlit("7");
        reveal_strlit("8");
        reveal_strlit("9");
    }
    if d == 0 {
        "0"
    } else if d == 1 {
        "1"
    } else if d == 2 {
        "2"
    } else if d == 3 {
        "3"
    } else if d == 4 {
        "4"
    } else if d == 5 {
        "5"
    } else if d == 6 {
        "6"
    } else if d == 7 {
        "7"
    } else if d == 8 {
        "8"
    } else {
        "9"
    }
}

/// Decimal spelling of `n`.
pub fn decimal_string(n: u64) -> (r: String)
    ensures
        r@ == decimal(n as nat),
    decreases n,
{
    if n < 10 {
        String::from_str(digit_str(n))
    } else {
        let head = decimal_string(n / 10);
        head.concat(digit_str(n % 10))
    }
}

/// Reads a run of decimal digits as a `u64`; `None` when the text is not such
/// a run or its value does not fit.
pub fn parse_decimal(s: &str) -> (r: Option<u64>)
    ensures
        r.is_some() <==> is_decimal(s@) && decimal_value(s@) <= u64::MAX,
        r.is_some() ==> r.unwrap() as nat == decimal_value(s@),
{
    let n = s.unicode_len();
    if n == 0 {
        return None;
    }
    let mut acc: u64 = 0;
    let mut i: usize = 0;
    while i < n
        invariant
            n == s@.len(),
            0 <= i <= n,
            forall|j: int| 0 <= j < i ==> is_digit(#[trigger] s@[j]),
            acc as nat == decimal_value(s@.take(i as int)),
        decreases n - i,
    {
        let c = s.get_char(i);
        assert(s@.take(i + 1).drop_last() == s@.take(i as int));
        if !('0' <= c && c <= '9') {
            return None;
        }
        let d: u64 = (c as u32 - 48) as u64;
        if acc > (u64::MAX - d) / 10 {
            proof {
                lemma_decimal_value_grows(s@, i as int + 1, n as int);
            }
            return None;
        }
        acc = acc * 10 + d;
        i = i + 1;
    }
    assert(s@.take(n as int) == s@);
    Some(acc)
}

proof fn lemma_decimal_value_grows(s: Seq<char>, i: int, n: int)
    requires
        0 < i <= n,
        n == s.len(),
        decimal_value(s.take(i)) > u64::MAX,
    ensures
        !(is_decimal(s) && decimal_value(s) <= u64::MAX),
    decreases n - i,
{
    if i < n {
        assert(s.take(i + 1).drop_last() == s.take(i));
        lemma_decimal_value_grows(s, i + 1, n);
    } else {
        assert(s.take(n) == s);
    }
}

/// Character-wise equality of two strings.
pub fn str_eq(a: &str, b: &str) -> (r: bool)
    ensures
        r == (a@ == b@),
{
    let n = a.unicode_len();
    if n != b.unicode_len() {
        return false;
    }
    let mut i: usize = 0;
    while i < n
        invariant
            n == a@.len(),
            n == b@.len(),
            0 <= i <= n,
            forall|j: int| 0 <= j < i ==> a@[j] == b@[j],
        decreases n - i,
    {
        if a.get_char(i) != b.get_char(i) {
            return false;
        }
        i = i + 1;
    }
    assert(a@ == b@);
    true
}

/// Whether `s` begins with `prefix`.
pub fn starts_with(s: &str, prefix: &str) -> (r: bool)
    ensures
        r == prefix@.is_prefix_of(s@),
{
    let n = prefix.unicode_len();
    if n > s.unicode_len() {
        return false;
    }
    let mut i: usize = 0;
    while i < n
        invariant
            n == prefix@.len(),
            n <= s@.len(),
            0 <= i <= n,
            forall|j: int| 0 <= j < i ==> prefix@[j] == s@[j],
        decreases n - i,
    {
        if prefix.get_char(i) != s.get_char(i) {
            return false;
        }
        i = i + 1;
    }
    assert(prefix@ == s@.subrange(0, n as int));
    true
}

/// Makes `url` absolute against `host`, unless it already is.
pub fn append_url(host: &str, url: &str) -> (r: String)
    ensures
        r@ == join_url(host@, url@),
{
    if starts_with(url, "https://") {
        String::from_str(url)
    } else {
        String::from_str(host).concat(url)
    }
}

/// The text between a known prefix and a known suffix.
pub fn extract<'a>(s: &'a str, prefix: &str, suffix: &str) -> (r: &'a str)
    requires
        prefix@.is_prefix_of(s@),
        suffix@.is_suffix_of(s@),
        prefix@.len() + suffix@.len() <= s@.len(),
    ensures
        r@ == s@.subrange(prefix@.len() as int, s@.len() - suffix@.len()),
{
    let m = s.unicode_len();
    let from = prefix.unicode_len();
    let to = m - suffix.unicode_len();
    s.substring_char(from, to)
}

} // verus!

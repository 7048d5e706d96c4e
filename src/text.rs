//! Decimal numbers in text: parsing, formatting, and page file names.
use vstd::prelude::*;

verus! {

/// Whether `c` is an ASCII decimal digit.
pub open spec fn is_digit(c: char) -> bool {
    48 <= c as u32 && c as u32 <= 57
}

/// The value of the ASCII digit `c`.
pub open spec fn digit_value(c: char) -> nat {
    (c as u32 - 48) as nat
}

/// Every character of `s` is a decimal digit.
pub open spec fn all_digits(s: Seq<char>) -> bool {
    forall|i: int| 0 <= i < s.len() ==> is_digit(#[trigger] s[i])
}

/// The number written by the digit string `s`, most significant digit first.
pub open spec fn decimal_value(s: Seq<char>) -> nat
    decreases s.len(),
{
    if s.len() == 0 {
        0
    } else {
        decimal_value(s.drop_last()) * 10 + digit_value(s.last())
    }
}

/// `s` without its leading `+`, if it has one.
pub open spec fn unsigned_digits(s: Seq<char>) -> Seq<char> {
    if s.len() > 0 && s[0] == '+' {
        s.drop_first()
    } else {
        s
    }
}

/// The number that `s` denotes as an unsigned decimal: an optional leading
/// `+` followed by at least one digit, and nothing else.
pub open spec fn parsed_number(s: Seq<char>) -> Option<nat> {
    let digits = unsigned_digits(s);
    if digits.len() > 0 && all_digits(digits) {
        Some(decimal_value(digits))
    } else {
        None
    }
}

/// The character of the digit `d`.
pub open spec fn digit_char(d: nat) -> char
    recommends
        d < 10,
{
    if d == 0 {
        '0'
    } else if d == 1 {
        '1'
    } else if d == 2 {
        '2'
    } else if d == 3 {
        '3'
    } else if d == 4 {
        '4'
    } else if d == 5 {
        '5'
    } else if d == 6 {
        '6'
    } else if d == 7 {
        '7'
    } else if d == 8 {
        '8'
    } else {
        '9'
    }
}

/// The shortest decimal representation of `n`.
pub open spec fn decimal_text(n: nat) -> Seq<char>
    decreases n,
{
    if n < 10 {
        seq![digit_char(n)]
    } else {
        decimal_text(n / 10).push(digit_char(n % 10))
    }
}

proof fn lemma_digit_char(d: nat)
    requires
        d < 10,
    ensures
        is_digit(digit_char(d)),
        digit_value(digit_char(d)) == d,
        digit_char(d) != '+',
{
    assert('0' as u32 == 48 && '1' as u32 == 49 && '2' as u32 == 50 && '3' as u32 == 51);
    assert('4' as u32 == 52 && '5' as u32 == 53 && '6' as u32 == 54 && '7' as u32 == 55);
    assert('8' as u32 == 56 && '9' as u32 == 57 && '+' as u32 == 43);
}

/// A decimal representation is a non-empty string of digits that denotes `n`.
pub proof fn lemma_decimal_text(n: nat)
    ensures
        decimal_text(n).len() > 0,
        all_digits(decimal_text(n)),
        decimal_value(decimal_text(n)) == n,
        parsed_number(decimal_text(n)) == Some(n),
    decreases n,
{
    let t = decimal_text(n);
    if n < 10 {
        lemma_digit_char(n);
        assert(t.drop_last() =~= Seq::<char>::empty());
        assert(decimal_value(t.drop_last()) == 0);
        assert(t.last() == digit_char(n));
        assert(decimal_value(t) == n);
    } else {
        lemma_digit_char(n % 10);
        lemma_decimal_text(n / 10);
        assert(n == (n / 10) * 10 + n % 10);
        assert(t.drop_last() =~= decimal_text(n / 10));
        assert forall|i: int| 0 <= i < t.len() implies is_digit(#[trigger] t[i]) by {
            if i < t.len() - 1 {
                assert(t[i] == decimal_text(n / 10)[i]);
            }
        }
    }
    assert(is_digit(t[0]));
    assert(t[0] != '+') by {
        assert('+' as u32 == 43);
    }
}

/// A digit string denotes at least what any of its prefixes denotes.
proof fn lemma_prefix_value_le(s: Seq<char>, i: int)
    requires
        0 <= i <= s.len(),
    ensures
        decimal_value(s.subrange(0, i)) <= decimal_value(s),
    decreases s.len() - i,
{
    if i < s.len() {
        lemma_prefix_value_le(s, i + 1);
        let p = s.subrange(0, i + 1);
        assert(p.drop_last() =~= s.subrange(0, i));
    } else {
        assert(s.subrange(0, i) =~= s);
    }
}

/// Reads `s` as an unsigned decimal no greater than `max`.
fn parse_bounded(s: &str, max: u64) -> (r: Option<u64>)
    requires
        max >= 9,
    ensures
        r is Some <==> (parsed_number(s@) is Some && parsed_number(s@)->0 <= max),
        r is Some ==> r->0 == parsed_number(s@)->0,
{
    let len = s.unicode_len();
    let mut start: usize = 0;
    if len > 0 && s.get_char(0) == '+' {
        start = 1;
    }
    let ghost digits = unsigned_digits(s@);
    assert(digits =~= s@.subrange(start as int, s@.len() as int));
    if start == len {
        return None;
    }
    let mut acc: u64 = 0;
    let mut i: usize = start;
    while i < len
        invariant
            start <= i <= len,
            len == s@.len(),
            max >= 9,
            digits == unsigned_digits(s@),
            digits =~= s@.subrange(start as int, len as int),
            all_digits(digits.subrange(0, i - start)),
            acc as nat == decimal_value(digits.subrange(0, i - start)),
            acc <= max,
        decreases len - i,
    {
        let c = s.get_char(i);
        let ghost k: int = i - start;
        let ghost p = digits.subrange(0, k + 1);
        assert(p.drop_last() =~= digits.subrange(0, k));
        assert(p.last() == c);
        let cv = c as u32;
        if !(48 <= cv && cv <= 57) {
            assert(!all_digits(digits)) by {
                assert(digits[k] == c);
                assert(!is_digit(digits[k]));
            }
            assert(digits.len() > 0);
            assert(parsed_number(s@) is None);
            return None;
        }
        let d = (cv - 48) as u64;
        assert(d <= 9);
        if acc > (max - d) / 10 {
            assert(decimal_value(p) > max) by (nonlinear_arith)
                requires
                    decimal_value(p) == acc * 10 + d,
                    acc > (max - d) / 10,
            {
            }
            proof {
                if all_digits(digits) {
                    lemma_prefix_value_le(digits, k + 1);
                    assert(digits.subrange(0, k + 1) == p);
                }
            }
            return None;
        }
        assert(acc * 10 + d <= max) by (nonlinear_arith)
            requires
                acc <= (max - d) / 10,
                d <= 9,
        {
        }
        acc = acc * 10 + d;
        i = i + 1;
        assert forall|j: int| 0 <= j < p.len() implies is_digit(#[trigger] p[j]) by {
            if j < k {
                assert(p[j] == digits.subrange(0, k)[j]);
            }
        }
    }
    assert(digits.subrange(0, len - start) =~= digits);
    Some(acc)
}

/// Reads `s` as a `usize` the way std's unsigned parsing does: an optional
/// `+`, then decimal digits only, the value in range.
pub fn parse_usize(s: &str) -> (r: Option<usize>)
    ensures
        r is Some <==> (parsed_number(s@) is Some && parsed_number(s@)->0 <= usize::MAX),
        r is Some ==> r->0 == parsed_number(s@)->0,
{
    match parse_bounded(s, usize::MAX as u64) {
        Some(v) => Some(v as usize),
        None => None,
    }
}

/// Reads `s` as a `u32`: an optional `+`, then decimal digits only, the
/// value in range.
pub fn parse_u32(s: &str) -> (r: Option<u32>)
    ensures
        r is Some <==> (parsed_number(s@) is Some && parsed_number(s@)->0 <= u32::MAX),
        r is Some ==> r->0 == parsed_number(s@)->0,
{
    match parse_bounded(s, u32::MAX as u64) {
        Some(v) => Some(v as u32),
        None => None,
    }
}

/// The text of one decimal digit.
fn digit_str(d: usize) -> (r: &'static str)
    requires
        d < 10,
    ensures
        r@ == seq![digit_char(d as nat)],
{
    proof {
        reveal_strlit("0");
        reveal_strlit("1");
        reveal_strlit("2");
        reveal_strlit("3");
        reveal_strlit("4");
        reveal_strlit("5");
        reveal_strlit("6");
        reveal_strlit("7");
        reveal_strlit("8");
        reveal_strlit("9");
    }
    if d == 0 {
        "0"
    } else if d == 1 {
        "1"
    } else if d == 2 {
        "2"
    } else if d == 3 {
        "3"
    } else if d == 4 {
        "4"
    } else if d == 5 {
        "5"
    } else if d == 6 {
        "6"
    } else if d == 7 {
        "7"
    } else if d == 8 {
        "8"
    } else {
        "9"
    }
}

/// The shortest decimal representation of `n`.
pub fn format_decimal(n: usize) -> (r: String)
    ensures
        r@ == decimal_text(n as nat),
    decreases n,
{
    if n < 10 {
        String::from_str(digit_str(n))
    } else {
        let mut r = format_decimal(n / 10);
        r.append(digit_str(n % 10));
        r
    }
}

/// The suffix that page file names carry.
pub open spec fn txt_suffix() -> Seq<char> {
    seq!['.', 't', 'x', 't']
}

/// `s` with every trailing repetition of `.txt` removed.
pub open spec fn strip_txt(s: Seq<char>) -> Seq<char>
    decreases s.len(),
{
    if s.len() >= 4 && s.subrange(s.len() - 4, s.len() as int) == txt_suffix() {
        strip_txt(s.subrange(0, s.len() - 4))
    } else {
        s
    }
}

/// The page number that a page file's name carries: the name without its
/// trailing `.txt` suffixes, read as a `u32`.
pub fn page_number_from_file_name(name: &str) -> (r: Option<u32>)
    ensures
        r is Some <==> (parsed_number(strip_txt(name@)) is Some && parsed_number(
            strip_txt(name@),
        )->0 <= u32::MAX),
        r is Some ==> r->0 == parsed_number(strip_txt(name@))->0,
{
    let len = name.unicode_len();
    let mut end: usize = len;
    assert(name@.subrange(0, len as int) =~= name@);
    while end >= 4 && name.get_char(end - 4) == '.' && name.get_char(end - 3) == 't'
        && name.get_char(end - 2) == 'x' && name.get_char(end - 1) == 't'
        invariant
            end <= len,
            len == name@.len(),
            strip_txt(name@) == strip_txt(name@.subrange(0, end as int)),
        decreases end,
    {
        let ghost t = name@.subrange(0, end as int);
        assert(t.subrange(t.len() - 4, t.len() as int) =~= txt_suffix());
        assert(t.subrange(0, t.len() - 4) =~= name@.subrange(0, end - 4));
        end = end - 4;
    }
    let ghost t = name@.subrange(0, end as int);
    if end >= 4 {
        assert(t.subrange(t.len() - 4, t.len() as int) != txt_suffix()) by {
            let u = t.subrange(t.len() - 4, t.len() as int);
            if u == txt_suffix() {
                assert(u[0] == name@[end - 4]);
                assert(u[1] == name@[end - 3]);
                assert(u[2] == name@[end - 2]);
                assert(u[3] == name@[end - 1]);
            }
        }
    }
    let stem = name.substring_char(0, end);
    parse_u32(stem)
}

/// Whether `c` has Unicode's White_Space property, the whitespace that
/// `char::is_whitespace` and `str::trim` go by.
pub open spec fn is_white_space(c: char) -> bool {
    let u = c as u32;
    (0x9 <= u && u <= 0xD) || u == 0x20 || u == 0x85 || u == 0xA0 || u == 0x1680 || (0x2000 <= u
        && u <= 0x200A) || u == 0x2028 || u == 0x2029 || u == 0x202F || u == 0x205F || u == 0x3000
}

/// `s` without its leading whitespace.
pub open spec fn trim_start_of(s: Seq<char>) -> Seq<char>
    decreases s.len(),
{
    if s.len() > 0 && is_white_space(s[0]) {
        trim_start_of(s.drop_first())
    } else {
        s
    }
}

/// `s` without its trailing whitespace.
pub open spec fn trim_end_of(s: Seq<char>) -> Seq<char>
    decreases s.len(),
{
    if s.len() > 0 && is_white_space(s.last()) {
        trim_end_of(s.drop_last())
    } else {
        s
    }
}

/// `s` without leading and trailing whitespace.
pub open spec fn trimmed(s: Seq<char>) -> Seq<char> {
    trim_end_of(trim_start_of(s))
}

/// Text that neither starts nor ends with whitespace is its own trim.
pub proof fn lemma_trimmed_unchanged(s: Seq<char>)
    requires
        s.len() > 0 ==> !is_white_space(s[0]) && !is_white_space(s.last()),
    ensures
        trimmed(s) == s,
{
}

/// A decimal numeral is its own trim.
pub proof fn lemma_numeral_trimmed(n: nat)
    ensures
        trimmed(decimal_text(n)) == decimal_text(n),
{
    lemma_decimal_text(n);
    let t = decimal_text(n);
    assert(is_digit(t[0]));
    assert(is_digit(t[t.len() - 1]));
    lemma_trimmed_unchanged(t);
}

/// Relies on `str::trim`: `s` without leading and trailing characters of
/// Unicode's White_Space property.
#[verifier::external_body]
pub(crate) fn trim_text(s: &str) -> (r: String)
    ensures
        r@ == trimmed(s@),
{
    s.trim().to_string()
}

} // verus!

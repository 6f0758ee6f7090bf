//! The format of a brightness value file: a decimal number, possibly
//! surrounded by white space, read as `str::trim` and `u64::from_str` read it.
use vstd::arithmetic::power::pow;
use vstd::prelude::*;

verus! {

/// Why a trimmed value-file text is not a `u64`.
#[derive(Debug, Clone, Copy, PartialEq, Eq, Structural)]
pub enum IntErrorKind {
    /// Nothing but white space.
    Empty,
    /// A character that is not a decimal digit (a lone sign included).
    InvalidDigit,
    /// The number does not fit in a `u64`.
    PosOverflow,
}

/// Unicode's `White_Space` property, which `char::is_whitespace` tests.
pub open spec fn is_white_space(c: char) -> bool {
    let code = c as u32;
    ||| 0x9 <= code <= 0xd
    ||| code == 0x20
    ||| code == 0x85
    ||| code == 0xa0
    ||| code == 0x1680
    ||| 0x2000 <= code <= 0x200a
    ||| code == 0x2028
    ||| code == 0x2029
    ||| code == 0x202f
    ||| code == 0x205f
    ||| code == 0x3000
}

/// `s` without its leading white space.
pub open spec fn trim_start(s: Seq<char>) -> Seq<char>
    decreases s.len(),
{
    if s.len() > 0 && is_white_space(s[0]) {
        trim_start(s.drop_first())
    } else {
        s
    }
}

/// `s` without its trailing white space.
pub open spec fn trim_end(s: Seq<char>) -> Seq<char>
    decreases s.len(),
{
    if s.len() > 0 && is_white_space(s.last()) {
        trim_end(s.drop_last())
    } else {
        s
    }
}

/// `s` without leading and trailing white space.
pub open spec fn trim(s: Seq<char>) -> Seq<char> {
    trim_end(trim_start(s))
}

pub open spec fn is_digit(c: char) -> bool {
    0x30 <= (c as u32) <= 0x39
}

pub open spec fn digit_value(c: char) -> int {
    (c as u32) - 0x30
}

/// Reads `s` as decimal digits from left to right and reports the first
/// problem met: a character that is no digit, or a prefix that overflows.
pub open spec fn scan_digits(s: Seq<char>) -> Result<u64, IntErrorKind>
    decreases s.len(),
{
    if s.len() == 0 {
        Ok(0)
    } else {
        match scan_digits(s.drop_last()) {
            Err(e) => Err(e),
            Ok(prefix) => if !is_digit(s.last()) {
                Err(IntErrorKind::InvalidDigit)
            } else if prefix * 10 + digit_value(s.last()) > u64::MAX {
                Err(IntErrorKind::PosOverflow)
            } else {
                Ok((prefix * 10 + digit_value(s.last())) as u64)
            },
        }
    }
}

/// What `u64::from_str` makes of `s`: an optional `+`, then decimal digits.
pub open spec fn parse_u64(s: Seq<char>) -> Result<u64, IntErrorKind> {
    if s.len() == 0 {
        Err(IntErrorKind::Empty)
    } else if s.len() == 1 && (s[0] == '+' || s[0] == '-') {
        Err(IntErrorKind::InvalidDigit)
    } else if s[0] == '+' {
        scan_digits(s.drop_first())
    } else {
        scan_digits(s)
    }
}

/// The value that a value file with the text `s` holds.
pub open spec fn parse_value(s: Seq<char>) -> Result<u64, IntErrorKind> {
    parse_u64(trim(s))
}

/// The decimal character of a digit.
pub open spec fn digit_char(d: nat) -> char {
    ((d + 0x30) as u32) as char
}

/// The decimal text of `n`, without sign or leading zeros.
pub open spec fn decimal(n: nat) -> Seq<char>
    decreases n,
{
    if n < 10 {
        seq![digit_char(n)]
    } else {
        decimal(n / 10).push(digit_char(n % 10))
    }
}

/// The characters of `s`, in order.
fn chars_of(s: &str) -> (chars: Vec<char>)
    ensures
        chars@ == s@,
{
    let mut chars: Vec<char> = Vec::new();
    for c in iter: s.chars()
        invariant
            chars@ == iter.seq().take(iter.index() as int),
            iter.seq() == s@,
    {
        chars.push(c);
    }
    chars
}

/// Whether `c` is white space, as `char::is_whitespace` decides.
fn is_white_space_char(c: char) -> (b: bool)
    ensures
        b == is_white_space(c),
{
    let code = c as u32;
    (0x9 <= code && code <= 0xd) || code == 0x20 || code == 0x85 || code == 0xa0 || code == 0x1680
        || (0x2000 <= code && code <= 0x200a) || code == 0x2028 || code == 0x2029 || code == 0x202f
        || code == 0x205f || code == 0x3000
}

/// The bounds `(start, end)` of `trim(chars)` within `chars`.
fn trim_bounds(chars: &Vec<char>) -> (bounds: (usize, usize))
    ensures
        bounds.0 <= bounds.1 <= chars.len(),
        trim(chars@) == chars@.subrange(bounds.0 as int, bounds.1 as int),
{
    let len = chars.len();
    let mut start: usize = 0;
    assert(chars@.subrange(0, len as int) =~= chars@);
    while start < len && is_white_space_char(chars[start])
        invariant
            start <= len == chars.len(),
            trim_start(chars@) == trim_start(chars@.subrange(start as int, len as int)),
        decreases len - start,
    {
        assert(chars@.subrange(start as int, len as int).drop_first() =~= chars@.subrange(
            start + 1,
            len as int,
        ));
        start = start + 1;
    }
    let ghost rest = chars@.subrange(start as int, len as int);
    assert(trim_start(rest) == rest);
    let mut end: usize = len;
    while end > start && is_white_space_char(chars[end - 1])
        invariant
            start <= end <= len == chars.len(),
            rest == chars@.subrange(start as int, len as int),
            trim_end(rest) == trim_end(chars@.subrange(start as int, end as int)),
        decreases end - start,
    {
        assert(chars@.subrange(start as int, end as int).drop_last() =~= chars@.subrange(
            start as int,
            end - 1,
        ));
        end = end - 1;
    }
    (start, end)
}

/// Once a prefix of `s` fails to scan, `s` fails in the same way.
proof fn lemma_scan_error_persists(s: Seq<char>, i: int)
    requires
        0 <= i <= s.len(),
        scan_digits(s.take(i)) is Err,
    ensures
        scan_digits(s) == scan_digits(s.take(i)),
    decreases s.len(),
{
    if i == s.len() {
        assert(s.take(i) =~= s);
    } else {
        assert(s.drop_last().take(i) =~= s.take(i));
        lemma_scan_error_persists(s.drop_last(), i);
    }
}

/// Reads `chars[from..to]` as decimal digits, as `scan_digits` does.
fn scan_digit_range(chars: &Vec<char>, from: usize, to: usize) -> (result: Result<
    u64,
    IntErrorKind,
>)
    requires
        from <= to <= chars.len(),
    ensures
        result == scan_digits(chars@.subrange(from as int, to as int)),
{
    let mut value: u64 = 0;
    let mut k: usize = from;
    assert(chars@.subrange(from as int, from as int) =~= Seq::<char>::empty());
    while k < to
        invariant
            from <= k <= to <= chars.len(),
            scan_digits(chars@.subrange(from as int, k as int)) == Ok::<u64, IntErrorKind>(value),
        decreases to - k,
    {
        let ghost prefix = chars@.subrange(from as int, k as int);
        let ghost next = chars@.subrange(from as int, k + 1);
        assert(next.drop_last() =~= prefix);
        assert(next.last() == chars@[k as int]);
        let ghost whole = chars@.subrange(from as int, to as int);
        assert(whole.take(k + 1 - from) =~= next);
        let code = chars[k] as u32;
        if code < 0x30 || code > 0x39 {
            proof {
                lemma_scan_error_persists(whole, k + 1 - from);
            }
            return Err(IntErrorKind::InvalidDigit);
        }
        let digit = (code - 0x30) as u64;
        match value.checked_mul(10) {
            None => {
                proof {
                    lemma_scan_error_persists(whole, k + 1 - from);
                }
                return Err(IntErrorKind::PosOverflow);
            },
            Some(tens) => match tens.checked_add(digit) {
                None => {
                    proof {
                        lemma_scan_error_persists(whole, k + 1 - from);
                    }
                    return Err(IntErrorKind::PosOverflow);
                },
                Some(v) => {
                    value = v;
                },
            },
        }
        k = k + 1;
    }
    Ok(value)
}

/// Reads the text of a value file: the number that it holds, or why it
/// holds none.
pub fn parse_value_text(text: &str) -> (result: Result<u64, IntErrorKind>)
    ensures
        result == parse_value(text@),
{
    let chars = chars_of(text);
    let (start, end) = trim_bounds(&chars);
    let ghost trimmed = chars@.subrange(start as int, end as int);
    if start == end {
        assert(trimmed.len() == 0);
        return Err(IntErrorKind::Empty);
    }
    let first = chars[start];
    assert(trimmed[0] == first);
    if end - start == 1 && (first == '+' || first == '-') {
        return Err(IntErrorKind::InvalidDigit);
    }
    if first == '+' {
        assert(trimmed.drop_first() =~= chars@.subrange(start + 1, end as int));
        scan_digit_range(&chars, start + 1, end)
    } else {
        scan_digit_range(&chars, start, end)
    }
}

/// The text made of `chars`, in order: std's `String::from_iter` over
/// `&char` items appends each character in turn.
#[verifier::external_body]
fn string_from_chars(chars: &Vec<char>) -> (text: String)
    ensures
        text@ == chars@,
{
    String::from_iter(chars)
}

/// Appends the decimal text of `n` to `out`.
fn push_decimal(n: u64, out: &mut Vec<char>)
    ensures
        final(out)@ == old(out)@ + decimal(n as nat),
    decreases n,
{
    if n >= 10 {
        push_decimal(n / 10, out);
    }
    let d = (n % 10) as u8;
    let c = (0x30 + d) as char;
    out.push(c);
}

/// The text that a value file holds after `value` was written to it: the
/// number in decimal, as `format!("{}", value)` gives it.
pub fn render_value(value: u64) -> (text: String)
    ensures
        text@ == decimal(value as nat),
{
    let mut chars: Vec<char> = Vec::new();
    push_decimal(value, &mut chars);
    assert(chars@ =~= decimal(value as nat));
    string_from_chars(&chars)
}

proof fn lemma_digit_char(d: nat)
    requires
        d < 10,
    ensures
        is_digit(digit_char(d)),
        digit_value(digit_char(d)) == d,
        !is_white_space(digit_char(d)),
        digit_char(d) != '+',
        digit_char(d) != '-',
{
}

/// Every character of `decimal(n)` is a digit, and scanning it gives `n`.
proof fn lemma_scan_decimal(n: nat)
    requires
        n <= u64::MAX,
    ensures
        decimal(n).len() >= 1,
        forall|i: int| 0 <= i < decimal(n).len() ==> is_digit(#[trigger] decimal(n)[i]),
        scan_digits(decimal(n)) == Ok::<u64, IntErrorKind>(n as u64),
    decreases n,
{
    if n < 10 {
        lemma_digit_char(n);
        assert(decimal(n).drop_last() =~= Seq::<char>::empty());
        assert(decimal(n).last() == digit_char(n));
        assert(scan_digits(decimal(n).drop_last()) == Ok::<u64, IntErrorKind>(0));
    } else {
        lemma_scan_decimal(n / 10);
        lemma_digit_char(n % 10);
        assert(decimal(n).drop_last() =~= decimal(n / 10));
        assert(decimal(n).last() == digit_char(n % 10));
        assert((n / 10) * 10 + n % 10 == n);
        assert(scan_digits(decimal(n).drop_last()) == Ok::<u64, IntErrorKind>((n / 10) as u64));
    }
}

/// Writing a value and reading the file back gives that value: the text
/// that `render_value` makes is read by `parse_value` as the same number.
pub proof fn lemma_rendered_value_reads_back(value: u64)
    ensures
        parse_value(decimal(value as nat)) == Ok::<u64, IntErrorKind>(value),
{
    let text = decimal(value as nat);
    lemma_scan_decimal(value as nat);
    assert(is_digit(text[0]));
    assert(is_digit(text.last()));
    assert(trim_start(text) == text);
    assert(trim_end(text) == text);
}


/// The decimal text of a number is the canonical one: 0 is written `0`; a
/// positive number has no leading zero and exactly as many digits as it
/// needs, that is `len` digits where `10^(len-1) <= n < 10^len`; and the
/// digits, read from left to right, make up the number.
pub proof fn lemma_decimal_is_canonical(n: nat)
    ensures
        n == 0 ==> decimal(n) == seq!['0'],
        n > 0 ==> decimal(n)[0] != '0',
        n > 0 ==> pow(10, (decimal(n).len() - 1) as nat) <= n < pow(10, decimal(n).len()),
        forall|i: int| 0 <= i < decimal(n).len() ==> is_digit(#[trigger] decimal(n)[i]),
    decreases n,
{
    if n < 10 {
        lemma_digit_char(n);
        assert(('0' as u32) == 0x30);
        assert(pow(10, 0) == 1) by {
            reveal_with_fuel(pow, 1);
        }
        assert(pow(10, 1) == 10) by {
            reveal_with_fuel(pow, 2);
        }
        if n == 0 {
            assert(decimal(n) =~= seq!['0']);
        }
    } else {
        lemma_decimal_is_canonical(n / 10);
        lemma_digit_char(n % 10);
        let prefix = decimal(n / 10);
        let len = prefix.len();
        assert(decimal(n) == prefix.push(digit_char(n % 10)));
        assert(decimal(n)[0] == prefix[0]);
        assert(decimal(n).len() == len + 1);
        let low = pow(10, (len - 1) as nat);
        let high = pow(10, len);
        assert(pow(10, len) == 10 * pow(10, (len - 1) as nat)) by {
            reveal_with_fuel(pow, 1);
        }
        assert(pow(10, (len + 1) as nat) == 10 * pow(10, len)) by {
            reveal_with_fuel(pow, 1);
        }
        assert(low <= n / 10 < high);
        assert(10 * low <= n < 10 * high) by (nonlinear_arith)
            requires
                low <= n / 10 < high,
                n >= 10,
        ;
        assert forall|i: int| 0 <= i < decimal(n).len() implies is_digit(
            #[trigger] decimal(n)[i],
        ) by {
            if i < len {
                assert(decimal(n)[i] == prefix[i]);
            }
        }
    }
}

} // verus!

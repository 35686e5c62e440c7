//! Character-level helpers: decimal rendering and parsing of integers, and
//! the Unicode case and whitespace operations of std behind trusted wrappers.
use vstd::prelude::*;
use vstd::string::*;
use vstd::utf8::is_ascii_chars;

verus! {

// ---------------------------------------------------------------------------
// Character classes
// ---------------------------------------------------------------------------

pub open spec fn is_digit(c: char) -> bool {
    '0' <= c <= '9'
}

pub open spec fn is_hex_digit(c: char) -> bool {
    ||| '0' <= c <= '9'
    ||| 'a' <= c <= 'f'
    ||| 'A' <= c <= 'F'
}

/// `char::is_ascii_graphic`: the printable ASCII characters other than space.
pub open spec fn is_ascii_graphic(c: char) -> bool {
    '!' <= c <= '~'
}

pub open spec fn is_ascii_alphanumeric(c: char) -> bool {
    ||| '0' <= c <= '9'
    ||| 'a' <= c <= 'z'
    ||| 'A' <= c <= 'Z'
}

pub open spec fn ascii_lower(c: char) -> char {
    if 'A' <= c <= 'Z' {
        ((c as int) + 32) as char
    } else {
        c
    }
}

/// No character of the string is an ASCII capital `A`-`Z`.
pub open spec fn no_ascii_capitals(s: Seq<char>) -> bool {
    forall|i: int| 0 <= i < s.len() ==> !('A' <= #[trigger] s[i] <= 'Z')
}

/// A string with `A`-`Z` lowered and every other character kept.
pub open spec fn ascii_lowercase_seq(s: Seq<char>) -> Seq<char> {
    s.map_values(|c: char| ascii_lower(c))
}

/// A string with `a`-`z` raised and every other character kept.
pub open spec fn ascii_uppercase_seq(s: Seq<char>) -> Seq<char> {
    s.map_values(|c: char| ascii_upper(c))
}

pub open spec fn ascii_upper(c: char) -> char {
    if 'a' <= c <= 'z' {
        ((c as int) - 32) as char
    } else {
        c
    }
}

/// `a == b` on string slices.
pub fn str_eq(a: &str, b: &str) -> (r: bool)
    ensures
        r == (a@ == b@),
{
    let n = a.unicode_len();
    if n != b.unicode_len() {
        return false;
    }
    let mut i: usize = 0;
    while i < n
        invariant
            n == a@.len(),
            n == b@.len(),
            i <= n,
            forall|k: int| 0 <= k < i ==> a@[k] == b@[k],
        decreases n - i,
    {
        if a.get_char(i) != b.get_char(i) {
            return false;
        }
        i = i + 1;
    }
    assert(a@ =~= b@);
    true
}

/// `s.starts_with(p)` for string slices.
pub fn starts_with(s: &str, p: &str) -> (r: bool)
    ensures
        r == (p@.len() <= s@.len() && s@.subrange(0, p@.len() as int) == p@),
{
    let n = p.unicode_len();
    if n > s.unicode_len() {
        return false;
    }
    let mut i: usize = 0;
    while i < n
        invariant
            n == p@.len(),
            n <= s@.len(),
            i <= n,
            forall|k: int| 0 <= k < i ==> s@[k] == p@[k],
        decreases n - i,
    {
        if s.get_char(i) != p.get_char(i) {
            assert(s@.subrange(0, n as int)[i as int] != p@[i as int]);
            return false;
        }
        i = i + 1;
    }
    assert(s@.subrange(0, n as int) =~= p@);
    true
}

// ---------------------------------------------------------------------------
// UTF-8 length
// ---------------------------------------------------------------------------

/// Number of bytes UTF-8 takes for one character (`char::len_utf8`).
pub open spec fn char_utf8_len(c: char) -> nat {
    if (c as int) < 0x80 {
        1
    } else if (c as int) < 0x800 {
        2
    } else if (c as int) < 0x10000 {
        3
    } else {
        4
    }
}

/// Number of bytes of the UTF-8 encoding of a string (`str::len`).
pub open spec fn utf8_len(s: Seq<char>) -> nat
    decreases s.len(),
{
    if s.len() == 0 {
        0
    } else {
        utf8_len(s.drop_last()) + char_utf8_len(s.last())
    }
}

/// The length in bytes of a string slice (`str::len`).
pub fn byte_len(s: &str) -> (r: u128)
    ensures
        r == utf8_len(s@),
{
    let n = s.unicode_len();
    let mut acc: u128 = 0;
    let mut i: usize = 0;
    while i < n
        invariant
            n == s@.len(),
            i <= n,
            acc == utf8_len(s@.subrange(0, i as int)),
            acc <= 4 * i,
        decreases n - i,
    {
        let c = s.get_char(i);
        let w: u128 = if (c as u32) < 0x80 {
            1
        } else if (c as u32) < 0x800 {
            2
        } else if (c as u32) < 0x10000 {
            3
        } else {
            4
        };
        assert(s@.subrange(0, i + 1).drop_last() =~= s@.subrange(0, i as int));
        acc = acc + w;
        i = i + 1;
    }
    assert(s@.subrange(0, n as int) =~= s@);
    acc
}

// ---------------------------------------------------------------------------
// Decimal rendering
// ---------------------------------------------------------------------------

pub open spec fn digit_char(d: nat) -> char {
    ((d as int) + 48) as char
}

/// The decimal digits of `n`, most significant first, with no leading zeros.
pub open spec fn decimal(n: nat) -> Seq<char>
    decreases n,
{
    if n < 10 {
        seq![digit_char(n)]
    } else {
        decimal(n / 10).push(digit_char(n % 10))
    }
}

/// The decimal rendering of a signed integer, with a leading `-` when negative.
pub open spec fn decimal_int(n: int) -> Seq<char> {
    if n < 0 {
        seq!['-'] + decimal((-n) as nat)
    } else {
        decimal(n as nat)
    }
}

/// A decimal rendering is never empty and consists of digits only.
pub proof fn decimal_is_digits(n: nat)
    ensures
        decimal(n).len() > 0,
        forall|i: int| 0 <= i < decimal(n).len() ==> is_digit(#[trigger] decimal(n)[i]),
    decreases n,
{
    if n >= 10 {
        decimal_is_digits(n / 10);
        assert forall|i: int| 0 <= i < decimal(n).len() implies is_digit(#[trigger] decimal(n)[i]) by {
            if i < decimal(n / 10).len() {
                assert(decimal(n)[i] == decimal(n / 10)[i]);
            }
        }
    }
}

/// Appends one character to a string (`String::push`).
#[verifier::external_body]
pub(crate) fn push_char(s: &mut String, c: char)
    ensures
        final(s)@ == old(s)@.push(c),
{
    s.push(c);
}

/// Appends a string slice to a string.
pub fn push_str(s: &mut String, t: &str)
    ensures
        final(s)@ == old(s)@ + t@,
{
    s.append(t);
}

/// Appends the decimal digits of `n` to `s`.
pub fn push_decimal(s: &mut String, n: u128)
    ensures
        final(s)@ == old(s)@ + decimal(n as nat),
    decreases n,
{
    if n >= 10 {
        push_decimal(s, n / 10);
    }
    let d: u128 = n % 10;
    let c: char = ((d as u8) + 48u8) as char;
    push_char(s, c);
    assert(c == digit_char((n % 10) as nat));
}

/// Appends the decimal rendering of a signed integer to `s`.
pub fn push_decimal_i64(s: &mut String, n: i64)
    ensures
        final(s)@ == old(s)@ + decimal_int(n as int),
{
    if n < 0 {
        push_char(s, '-');
        let wide: i128 = n as i128;
        let a: u128 = (0i128 - wide) as u128;
        push_decimal(s, a);
        assert(final(s)@ == old(s)@ + (seq!['-'] + decimal((-n) as nat)));
    } else {
        push_decimal(s, n as u128);
    }
}

/// `n.to_string()` for an unsigned integer.
pub fn format_u128(n: u128) -> (r: String)
    ensures
        r@ == decimal(n as nat),
{
    let mut s = String::new();
    push_decimal(&mut s, n);
    s
}

/// `n.to_string()` for a signed integer.
pub fn format_i64(n: i64) -> (r: String)
    ensures
        r@ == decimal_int(n as int),
{
    let mut s = String::new();
    push_decimal_i64(&mut s, n);
    s
}

// ---------------------------------------------------------------------------
// Decimal parsing (`str::parse::<u128>`)
// ---------------------------------------------------------------------------

/// Why a string is not an unsigned integer, as `core::num::IntErrorKind` says.
#[derive(Debug, Clone, Copy, PartialEq, Eq)]
pub enum IntParseError {
    Empty,
    InvalidDigit,
    PosOverflow,
}

pub open spec fn digit_value(c: char) -> nat {
    ((c as int) - 48) as nat
}

/// Reads `s[i..]` left to right onto the accumulated value `acc`: a non-digit
/// fails at once, and so does a prefix whose value exceeds `u128::MAX`.
pub open spec fn parse_digits_from(s: Seq<char>, i: int, acc: nat) -> Result<nat, IntParseError>
    decreases s.len() - i,
{
    if i < 0 || i >= s.len() {
        Ok(acc)
    } else if !is_digit(s[i]) {
        Err(IntParseError::InvalidDigit)
    } else if acc * 10 + digit_value(s[i]) > u128::MAX {
        Err(IntParseError::PosOverflow)
    } else {
        parse_digits_from(s, i + 1, acc * 10 + digit_value(s[i]))
    }
}

/// What `str::parse::<u128>` gives: an optional leading `+`, then decimal digits.
pub open spec fn parse_u128_spec(s: Seq<char>) -> Result<nat, IntParseError> {
    if s.len() == 0 {
        Err(IntParseError::Empty)
    } else if s.len() == 1 && (s[0] == '+' || s[0] == '-') {
        Err(IntParseError::InvalidDigit)
    } else if s[0] == '+' {
        parse_digits_from(s, 1, 0)
    } else {
        parse_digits_from(s, 0, 0)
    }
}

proof fn lemma_parse_digits_bounded(s: Seq<char>, i: int, acc: nat)
    requires
        acc <= u128::MAX,
    ensures
        parse_digits_from(s, i, acc) matches Ok(v) ==> v <= u128::MAX,
    decreases s.len() - i,
{
    if 0 <= i < s.len() && is_digit(s[i]) && acc * 10 + digit_value(s[i]) <= u128::MAX {
        lemma_parse_digits_bounded(s, i + 1, acc * 10 + digit_value(s[i]));
    }
}

/// Parses an unsigned decimal integer exactly as `str::parse::<u128>` does.
pub fn parse_u128(s: &str) -> (r: Result<u128, IntParseError>)
    ensures
        match parse_u128_spec(s@) {
            Ok(v) => r matches Ok(b) && b as nat == v,
            Err(e) => r == Err::<u128, IntParseError>(e),
        },
{
    let n = s.unicode_len();
    if n == 0 {
        return Err(IntParseError::Empty);
    }
    let first = s.get_char(0);
    if n == 1 && (first == '+' || first == '-') {
        return Err(IntParseError::InvalidDigit);
    }
    let start: usize = if first == '+' { 1 } else { 0 };
    let mut acc: u128 = 0;
    let mut i: usize = start;
    proof {
        lemma_parse_digits_bounded(s@, start as int, 0);
    }
    while i < n
        invariant
            n == s@.len(),
            start <= i <= n,
            parse_u128_spec(s@) == parse_digits_from(s@, start as int, 0),
            parse_digits_from(s@, start as int, 0) == parse_digits_from(s@, i as int, acc as nat),
        decreases n - i,
    {
        let c = s.get_char(i);
        if !('0' <= c && c <= '9') {
            assert(parse_digits_from(s@, i as int, acc as nat) == Err::<nat, IntParseError>(
                IntParseError::InvalidDigit));
            return Err(IntParseError::InvalidDigit);
        }
        let d: u128 = ((c as u32) - 48) as u128;
        assert(d == digit_value(s@[i as int]));
        if acc > (u128::MAX - d) / 10 {
            assert(acc * 10 + d > u128::MAX) by (nonlinear_arith)
                requires acc > (u128::MAX - d) / 10, d <= 9;
            assert(parse_digits_from(s@, i as int, acc as nat) == Err::<nat, IntParseError>(
                IntParseError::PosOverflow));
            return Err(IntParseError::PosOverflow);
        }
        assert(acc * 10 + d <= u128::MAX) by (nonlinear_arith)
            requires acc <= (u128::MAX - d) / 10, d <= 9;
        acc = acc * 10 + d;
        i = i + 1;
    }
    Ok(acc)
}

proof fn lemma_parse_digits_push(s: Seq<char>, c: char, i: int, acc: nat)
    requires
        0 <= i <= s.len(),
    ensures
        parse_digits_from(s.push(c), i, acc) == match parse_digits_from(s, i, acc) {
            Ok(v) => parse_digits_from(seq![c], 0, v),
            Err(e) => Err(e),
        },
    decreases s.len() - i,
{
    if i < s.len() {
        assert(s.push(c)[i] == s[i]);
        if is_digit(s[i]) && acc * 10 + digit_value(s[i]) <= u128::MAX {
            lemma_parse_digits_push(s, c, i + 1, acc * 10 + digit_value(s[i]));
        }
    } else {
        assert(s.push(c)[i] == c);
        assert(seq![c][0] == c);
        if is_digit(c) && acc * 10 + digit_value(c) <= u128::MAX {
            assert(parse_digits_from(s.push(c), i + 1, acc * 10 + digit_value(c)) == Ok::<
                nat,
                IntParseError,
            >(acc * 10 + digit_value(c)));
            assert(parse_digits_from(seq![c], 1, acc * 10 + digit_value(c)) == Ok::<
                nat,
                IntParseError,
            >(acc * 10 + digit_value(c)));
        }
    }
}

proof fn lemma_parse_decimal_digits(n: nat)
    requires
        n <= u128::MAX,
    ensures
        parse_digits_from(decimal(n), 0, 0) == Ok::<nat, IntParseError>(n),
    decreases n,
{
    let c = digit_char(n % 10);
    assert(is_digit(c) && digit_value(c) == n % 10);
    if n < 10 {
        assert(decimal(n) == seq![c]);
        assert(parse_digits_from(seq![c], 1, n) == Ok::<nat, IntParseError>(n));
    } else {
        lemma_parse_decimal_digits(n / 10);
        lemma_parse_digits_push(decimal(n / 10), c, 0, 0);
        assert((n / 10) * 10 + n % 10 == n);
        assert(seq![c][0] == c);
        assert(parse_digits_from(seq![c], 1, n) == Ok::<nat, IntParseError>(n));
    }
}

/// Reading back the decimal rendering of an amount gives the amount: what
/// `format_u128` writes, `parse_u128` reads.
pub proof fn parse_reads_back_decimal(n: nat)
    requires
        n <= u128::MAX,
    ensures
        parse_u128_spec(decimal(n)) == Ok::<nat, IntParseError>(n),
{
    decimal_is_digits(n);
    lemma_parse_decimal_digits(n);
    assert(is_digit(decimal(n)[0]));
}

/// The text `core::num::ParseIntError` displays for each kind.
pub open spec fn int_parse_error_text(e: IntParseError) -> Seq<char> {
    match e {
        IntParseError::Empty => "cannot parse integer from empty string"@,
        IntParseError::InvalidDigit => "invalid digit found in string"@,
        IntParseError::PosOverflow => "number too large to fit in target type"@,
    }
}

pub fn int_parse_error_message(e: IntParseError) -> (r: String)
    ensures
        r@ == int_parse_error_text(e),
{
    match e {
        IntParseError::Empty => String::from_str("cannot parse integer from empty string"),
        IntParseError::InvalidDigit => String::from_str("invalid digit found in string"),
        IntParseError::PosOverflow => String::from_str("number too large to fit in target type"),
    }
}

// ---------------------------------------------------------------------------
// Unicode case mapping and trimming (std)
// ---------------------------------------------------------------------------

/// What `str::to_lowercase` returns for a string.
pub uninterp spec fn lowercase_of(s: Seq<char>) -> Seq<char>;

/// What `str::to_uppercase` returns for a string.
pub uninterp spec fn uppercase_of(s: Seq<char>) -> Seq<char>;


/// `str::to_lowercase`: the Unicode lowercase mapping of the string. On an
/// all-ASCII string it lowers `A`-`Z` and keeps every other character; the
/// mapping of other characters is left to `lowercase_of`. No character is
/// mapped to an ASCII capital (Unicode's lowercase mappings never give one,
/// and `A`-`Z` themselves are lowered), so the result holds none.
#[verifier::external_body]
pub(crate) fn to_lowercase(s: &str) -> (r: String)
    ensures
        r@ == lowercase_of(s@),
        is_ascii_chars(s@) ==> r@ == ascii_lowercase_seq(s@),
        no_ascii_capitals(r@),
{
    s.to_lowercase()
}

/// `str::to_uppercase`: the Unicode uppercase mapping of the string. On an
/// all-ASCII string it raises `a`-`z` and keeps every other character; the
/// mapping of other characters is left to `uppercase_of`.
#[verifier::external_body]
pub(crate) fn to_uppercase(s: &str) -> (r: String)
    ensures
        r@ == uppercase_of(s@),
        is_ascii_chars(s@) ==> r@ == ascii_uppercase_seq(s@),
{
    s.to_uppercase()
}

// ---------------------------------------------------------------------------
// Trimming white space
// ---------------------------------------------------------------------------

/// Unicode's White_Space characters, which `char::is_whitespace` (and so
/// `str::trim`) takes as white space.
pub open spec fn is_white_space(c: char) -> bool {
    ||| '\u{9}' <= c <= '\u{d}'
    ||| c == ' '
    ||| c == '\u{85}'
    ||| c == '\u{a0}'
    ||| c == '\u{1680}'
    ||| '\u{2000}' <= c <= '\u{200a}'
    ||| c == '\u{2028}'
    ||| c == '\u{2029}'
    ||| c == '\u{202f}'
    ||| c == '\u{205f}'
    ||| c == '\u{3000}'
}

fn white_space(c: char) -> (r: bool)
    ensures
        r == is_white_space(c),
{
    ('\u{9}' <= c && c <= '\u{d}') || c == ' ' || c == '\u{85}' || c == '\u{a0}' || c
        == '\u{1680}' || ('\u{2000}' <= c && c <= '\u{200a}') || c == '\u{2028}' || c
        == '\u{2029}' || c == '\u{202f}' || c == '\u{205f}' || c == '\u{3000}'
}

/// The string without its leading white space.
pub open spec fn trim_start(s: Seq<char>) -> Seq<char>
    decreases s.len(),
{
    if s.len() > 0 && is_white_space(s[0]) {
        trim_start(s.drop_first())
    } else {
        s
    }
}

/// The string without its trailing white space.
pub open spec fn trim_end(s: Seq<char>) -> Seq<char>
    decreases s.len(),
{
    if s.len() > 0 && is_white_space(s.last()) {
        trim_end(s.drop_last())
    } else {
        s
    }
}

/// What `str::trim` gives: the string without leading and trailing white space.
pub open spec fn trimmed(s: Seq<char>) -> Seq<char> {
    trim_end(trim_start(s))
}

/// The string without its leading and trailing white space (`str::trim`).
pub fn trim(s: &str) -> (r: String)
    ensures
        r@ == trimmed(s@),
{
    let n = s.unicode_len();
    let mut start: usize = 0;
    assert(s@.subrange(0, n as int) =~= s@);
    while start < n && white_space(s.get_char(start))
        invariant
            n == s@.len(),
            start <= n,
            trim_start(s@) == trim_start(s@.subrange(start as int, n as int)),
        decreases n - start,
    {
        assert(s@.subrange(start as int, n as int).drop_first() =~= s@.subrange(
            start as int + 1,
            n as int,
        ));
        start = start + 1;
    }
    let ghost t = s@.subrange(start as int, n as int);
    assert(trim_start(s@) == t);
    let mut end: usize = n;
    while end > start && white_space(s.get_char(end - 1))
        invariant
            n == s@.len(),
            start <= end <= n,
            t == s@.subrange(start as int, n as int),
            trim_end(t) == trim_end(s@.subrange(start as int, end as int)),
        decreases end - start,
    {
        assert(s@.subrange(start as int, end as int).drop_last() =~= s@.subrange(
            start as int,
            end as int - 1,
        ));
        end = end - 1;
    }
    assert(trim_end(t) == s@.subrange(start as int, end as int));
    let mut r = String::new();
    let mut i: usize = start;
    while i < end
        invariant
            n == s@.len(),
            start <= i <= end <= n,
            r@ == s@.subrange(start as int, i as int),
        decreases end - i,
    {
        push_char(&mut r, s.get_char(i));
        assert(r@ =~= s@.subrange(start as int, i as int + 1));
        i = i + 1;
    }
    r
}

} // verus!

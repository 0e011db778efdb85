//! Reading a guess out of a line of text: surrounding whitespace is trimmed,
//! then what remains must be a decimal number, with an optional leading `+`,
//! that fits in a `u32`.
use vstd::prelude::*;
use vstd::string::StringSliceAdditionalSpecFns;

verus! {

/// Why a line held no valid guess.
#[derive(Clone, Copy, Debug, PartialEq, Eq, Structural)]
pub enum ParseError {
    /// Nothing was left after trimming.
    Empty,
    /// A character other than a decimal digit (a sign alone, a minus sign,
    /// a letter, inner whitespace).
    InvalidDigit,
    /// Only digits, but a value above `u32::MAX`.
    Overflow,
}

/// The byte of the ASCII digit `0`.
pub const ZERO: u8 = 48;

/// The byte of the ASCII plus sign.
pub const PLUS: u8 = 43;

pub open spec fn is_digit(b: u8) -> bool {
    ZERO <= b && b <= ZERO + 9
}

pub open spec fn all_digits(s: Seq<u8>) -> bool {
    forall|i: int| 0 <= i < s.len() ==> is_digit(#[trigger] s[i])
}

/// The number that a sequence of digits writes in base ten, most significant
/// digit first.
pub open spec fn digits_value(s: Seq<u8>) -> nat
    decreases s.len(),
{
    if s.len() == 0 {
        0
    } else {
        digits_value(s.drop_last()) * 10 + (s.last() - ZERO) as nat
    }
}

/// The text after an optional leading plus sign.
pub open spec fn unsigned_part(s: Seq<u8>) -> Seq<u8> {
    if s.len() > 0 && s[0] == PLUS {
        s.subrange(1, s.len() as int)
    } else {
        s
    }
}

/// What the text `s`, already trimmed, reads as.
pub open spec fn decimal(s: Seq<u8>) -> Result<u32, ParseError> {
    if s.len() == 0 {
        Err(ParseError::Empty)
    } else if unsigned_part(s).len() == 0 || !all_digits(unsigned_part(s)) {
        Err(ParseError::InvalidDigit)
    } else if digits_value(unsigned_part(s)) > u32::MAX {
        Err(ParseError::Overflow)
    } else {
        Ok(digits_value(unsigned_part(s)) as u32)
    }
}

/// `s` with the whitespace at both ends removed, as `str::trim` does it.
pub uninterp spec fn trimmed(s: Seq<char>) -> Seq<char>;

/// An ASCII character that `char::is_whitespace` accepts.
pub open spec fn is_ascii_space(c: char) -> bool {
    c == ' ' || c == '\t' || c == '\n' || c == '\r' || c == '\x0B' || c == '\x0C'
}

/// A visible ASCII character, which is never whitespace.
pub open spec fn is_ascii_graphic(c: char) -> bool {
    '!' <= c && c <= '~'
}

/// Text made of ASCII whitespace alone; the empty text is one.
pub open spec fn is_blank(s: Seq<char>) -> bool {
    forall|i: int| 0 <= i < s.len() ==> is_ascii_space(#[trigger] s[i])
}

/// Text that starts and ends with a visible ASCII character, which trimming
/// leaves as it is.
pub open spec fn is_framed(s: Seq<char>) -> bool {
    s.len() > 0 && is_ascii_graphic(s[0]) && is_ascii_graphic(s.last())
}

/// What a whole line reads as.
pub open spec fn guess_value(line: Seq<char>) -> Result<u32, ParseError> {
    decimal(vstd::utf8::encode_utf8(trimmed(line)))
}

/// Relies on `str::trim`: the text without leading and trailing whitespace
/// (Unicode `White_Space`, which holds the ASCII space, tab, line feed,
/// vertical tab, form feed and carriage return, and no visible ASCII
/// character).
#[verifier::external_body]
fn trim_text(s: &str) -> (r: &str)
    ensures
        r@ == trimmed(s@),
        is_blank(s@) ==> r@.len() == 0,
        is_framed(s@) ==> r@ == s@,
{
    s.trim()
}

/// Appending a digit shifts the value one place and adds the digit.
proof fn lemma_digits_push(s: Seq<u8>, d: u8)
    ensures
        digits_value(s.push(d)) == digits_value(s) * 10 + (d - ZERO) as nat,
{
    assert(s.push(d).drop_last() =~= s);
}

/// A prefix of a sequence of digits is worth no more than the whole.
proof fn lemma_prefix_no_larger(s: Seq<u8>, k: int)
    requires
        0 <= k <= s.len(),
        all_digits(s),
    ensures
        digits_value(s.subrange(0, k)) <= digits_value(s),
    decreases s.len(),
{
    if k < s.len() {
        assert(s.drop_last().subrange(0, k) =~= s.subrange(0, k));
        lemma_prefix_no_larger(s.drop_last(), k);
    } else {
        assert(s.subrange(0, k) =~= s);
    }
}

/// Reads a trimmed text as a guess: an optional `+`, then decimal digits
/// whose value fits in a `u32`.
pub fn parse_decimal(t: &str) -> (r: Result<u32, ParseError>)
    ensures
        r == decimal(t.spec_bytes()),
{
    let b = t.as_bytes();
    let n = b.len();
    if n == 0 {
        return Err(ParseError::Empty);
    }
    let start: usize = if b[0] == PLUS { 1 } else { 0 };
    let ghost body = unsigned_part(b@);
    assert(body =~= b@.subrange(start as int, n as int));
    if start == n {
        return Err(ParseError::InvalidDigit);
    }
    let mut i: usize = start;
    while i < n
        invariant
            start <= i <= n,
            n == b@.len(),
            body == b@.subrange(start as int, n as int),
            body == unsigned_part(b@),
            b@ == t.spec_bytes(),
            n > 0,
            forall|k: int| start <= k < i ==> is_digit(#[trigger] b@[k]),
        decreases n - i,
    {
        if b[i] < ZERO || b[i] > ZERO + 9 {
            assert(body[i - start] == b@[i as int]);
            assert(!is_digit(body[i - start]));
            return Err(ParseError::InvalidDigit);
        }
        i += 1;
    }
    assert(all_digits(body));
    let mut v: u32 = 0;
    i = start;
    while i < n
        invariant
            start <= i <= n,
            n == b@.len(),
            body == b@.subrange(start as int, n as int),
            body == unsigned_part(b@),
            b@ == t.spec_bytes(),
            n > 0,
            all_digits(body),
            v as nat == digits_value(body.subrange(0, i - start)),
        decreases n - i,
    {
        let ghost before = body.subrange(0, i - start);
        assert(body.subrange(0, i + 1 - start) =~= before.push(b@[i as int]));
        proof {
            lemma_digits_push(before, b@[i as int]);
            assert(is_digit(body[i - start]));
        }
        let w: u64 = v as u64 * 10 + (b[i] - ZERO) as u64;
        if w > u32::MAX as u64 {
            proof {
                assert(digits_value(body.subrange(0, i + 1 - start)) == w);
                lemma_prefix_no_larger(body, i + 1 - start);
                assert(digits_value(body) > u32::MAX);
            }
            return Err(ParseError::Overflow);
        }
        v = w as u32;
        i += 1;
    }
    assert(body.subrange(0, n - start) =~= body);
    Ok(v)
}

/// Reads a whole line as a guess: trims it, then reads what is left. A
/// blank line is `Empty`; a line with visible ASCII characters at both ends
/// is read as it stands.
pub fn parse_guess(line: &str) -> (r: Result<u32, ParseError>)
    ensures
        r == guess_value(line@),
        is_blank(line@) ==> r == Err::<u32, ParseError>(ParseError::Empty),
        is_framed(line@) ==> r == decimal(vstd::utf8::encode_utf8(line@)),
{
    let t = trim_text(line);
    parse_decimal(t)
}

} // verus!

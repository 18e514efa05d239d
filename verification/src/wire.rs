//! The wire form of 64-bit counters and sequence numbers: a decimal string,
//! never a bare number, so that no client loses precision above 2^53.

use vstd::prelude::*;
use vstd::string::*;

verus! {

/// The character that stands for the decimal digit `d`: `'0'` is character 48.
pub open spec fn digit_char(d: nat) -> char
    recommends
        d < 10,
{
    (48 + d) as char
}

/// True of the ten ASCII digits.
pub open spec fn is_digit(c: char) -> bool {
    '0' <= c <= '9'
}

/// The value of a decimal digit character.
pub open spec fn digit_value(c: char) -> nat
    recommends
        is_digit(c),
{
    (c as nat - 48) as nat
}

/// The canonical decimal text of `n`: no sign, no leading zero, `"0"` for zero.
pub open spec fn decimal_text(n: nat) -> Seq<char>
    decreases n,
{
    if n < 10 {
        seq![digit_char(n)]
    } else {
        decimal_text(n / 10).push(digit_char(n % 10))
    }
}

/// The text of one decimal digit.
fn digit_str(d: u64) -> (s: &'static str)
    requires
        d < 10,
    ensures
        s@ == seq![digit_char(d as nat)],
{
    proof {
        reveal_strlit("0");
        reveal_strlit("1");
        reveal_strlit("2");
        reveal_strlit("3");
        reveal_strlit("4");
        reveal_strlit("5");
        reveal_strlit("6");
        reveal_strlit("7");
        reveal_strlit("8");
        reveal_strlit("9");
    }
    let s = if d == 0 {
        "0"
    } else if d == 1 {
        "1"
    } else if d == 2 {
        "2"
    } else if d == 3 {
        "3"
    } else if d == 4 {
        "4"
    } else if d == 5 {
        "5"
    } else if d == 6 {
        "6"
    } else if d == 7 {
        "7"
    } else if d == 8 {
        "8"
    } else {
        "9"
    };
    assert(s@ =~= seq![digit_char(d as nat)]);
    s
}

/// Appends the canonical decimal text of `value` to `out`.
pub fn push_decimal(out: &mut String, value: u64)
    ensures
        final(out)@ == old(out)@ + decimal_text(value as nat),
    decreases value,
{
    if value >= 10 {
        push_decimal(out, value / 10);
    }
    out.append(digit_str(value % 10));
    assert(out@ =~= old(out)@ + decimal_text(value as nat));
}

/// The canonical decimal text of `value`.
pub fn encode(value: u64) -> (text: String)
    ensures
        text@ == decimal_text(value as nat),
{
    let mut text = String::new();
    push_decimal(&mut text, value);
    assert(text@ =~= decimal_text(value as nat));
    text
}

/// Why a text is not the wire form of a 64-bit counter.
#[derive(Clone, Copy, Debug, PartialEq, Eq, Structural)]
pub enum ParseError {
    /// The text has no character at all.
    Empty,
    /// The text holds something else than digits behind an optional `+`, or no digit.
    InvalidDigit,
    /// The digits denote a number above `u64::MAX`.
    PosOverflow,
}

/// The number that a sequence of decimal digits denotes, most significant first.
pub open spec fn digits_value(s: Seq<char>) -> nat
    decreases s.len(),
{
    if s.len() == 0 {
        0
    } else {
        digits_value(s.drop_last()) * 10 + digit_value(s.last())
    }
}

/// True where every character of `s` is a decimal digit.
pub open spec fn all_digits(s: Seq<char>) -> bool {
    forall|i: int| 0 <= i < s.len() ==> is_digit(#[trigger] s[i])
}

/// The text behind one leading `+`, or the whole text where there is none.
pub open spec fn unsigned_part(s: Seq<char>) -> Seq<char> {
    if s.len() > 0 && s[0] == '+' {
        s.drop_first()
    } else {
        s
    }
}

/// The texts that `decode` reads: an optional `+`, then one digit or more.
pub open spec fn is_integer_text(s: Seq<char>) -> bool {
    unsigned_part(s).len() > 0 && all_digits(unsigned_part(s))
}

/// What `decode` returns for the text `s`.
pub open spec fn spec_decode(s: Seq<char>) -> Result<u64, ParseError> {
    if s.len() == 0 {
        Err(ParseError::Empty)
    } else if !is_integer_text(s) {
        Err(ParseError::InvalidDigit)
    } else if digits_value(unsigned_part(s)) > u64::MAX {
        Err(ParseError::PosOverflow)
    } else {
        Ok(digits_value(unsigned_part(s)) as u64)
    }
}

/// The canonical text of a number is made of digits alone and denotes that number.
pub proof fn lemma_decimal_text_value(n: nat)
    ensures
        decimal_text(n).len() >= 1,
        all_digits(decimal_text(n)),
        digits_value(decimal_text(n)) == n,
    decreases n,
{
    if n < 10 {
        let s = decimal_text(n);
        let c = digit_char(n);
        assert(s.len() == 1 && s[0] == c);
        assert(is_digit(c) && digit_value(c) == n);
        assert(s.drop_last().len() == 0);
        assert(digits_value(s.drop_last()) == 0);
    } else {
        lemma_decimal_text_value(n / 10);
        let head = decimal_text(n / 10);
        let c = digit_char(n % 10);
        let s = head.push(c);
        assert(is_digit(c) && digit_value(c) == n % 10);
        assert(s.drop_last() =~= head);
        assert(s.last() == c);
        assert forall|i: int| 0 <= i < s.len() implies is_digit(#[trigger] s[i]) by {
            if i < head.len() {
                assert(s[i] == head[i]);
            }
        }
    }
}

/// Round trip: reading the text that `encode` writes gives the number back,
/// for every 64-bit value, those above 2^53 included.
pub proof fn lemma_decode_encode(value: u64)
    ensures
        spec_decode(decimal_text(value as nat)) == Ok::<u64, ParseError>(value),
{
    let s = decimal_text(value as nat);
    lemma_decimal_text_value(value as nat);
    let c = s[0];
    assert(is_digit(c));
    assert(c != '+');
    assert(unsigned_part(s) == s);
}

/// Two numbers with the same canonical text are the same number.
pub proof fn lemma_decimal_text_injective(a: nat, b: nat)
    requires
        decimal_text(a) == decimal_text(b),
    ensures
        a == b,
{
    lemma_decimal_text_value(a);
    lemma_decimal_text_value(b);
}

/// The byte of the digit `0`.
const ZERO: u8 = 48;

/// The byte of the digit `9`.
const NINE: u8 = 57;

/// The byte of the plus sign.
const PLUS: u8 = 43;

/// The byte that encodes an ASCII character.
spec fn ascii_byte(c: char) -> u8 {
    c as u8
}

/// Reads the wire form of a counter: an optional `+` followed by decimal digits.
///
/// Any other character makes the text malformed, wherever it stands; digits that
/// denote more than `u64::MAX` are an overflow.
pub fn decode(text: &str) -> (r: Result<u64, ParseError>)
    ensures
        r == spec_decode(text@),
{
    if !text.is_ascii() {
        proof {
            let j = choose|j: int|
                0 <= j < text@.len() && !('\0' <= #[trigger] text@[j] <= '\u{7f}');
            let c = text@[j];
            assert(!is_digit(c) && c != '+');
            if text@[0] == '+' {
                assert(unsigned_part(text@)[j - 1] == c);
            } else {
                assert(unsigned_part(text@)[j] == c);
            }
        }
        return Err(ParseError::InvalidDigit);
    }
    let bytes = text.as_bytes();
    let n = bytes.len();
    proof {
        is_ascii_spec_bytes(text);
        assert forall|k: int| 0 <= k < n implies bytes@[k] == ascii_byte(#[trigger] text@[k]) by {
            let c = text@[k];
            assert(bytes@[k] == c as u8);
        }
    }
    if n == 0 {
        return Err(ParseError::Empty);
    }
    let start: usize = if bytes[0] == PLUS {
        1
    } else {
        0
    };
    let ghost digits = unsigned_part(text@);
    assert(digits =~= text@.subrange(start as int, n as int));
    if start == n {
        return Err(ParseError::InvalidDigit);
    }
    let mut acc: u64 = 0;
    let mut overflow = false;
    let mut i: usize = start;
    while i < n
        invariant
            start <= i <= n,
            n == bytes@.len(),
            n == text@.len(),
            digits == text@.subrange(start as int, n as int),
            digits == unsigned_part(text@),
            forall|k: int| 0 <= k < n ==> bytes@[k] == ascii_byte(#[trigger] text@[k]),
            forall|k: int| 0 <= k < n ==> '\0' <= #[trigger] text@[k] <= '\u{7f}',
            all_digits(digits.take(i - start)),
            !overflow ==> acc == digits_value(digits.take(i - start)),
            overflow ==> digits_value(digits.take(i - start)) > u64::MAX,
        decreases n - i,
    {
        let b = bytes[i];
        let ghost c = text@[i as int];
        assert(digits[i - start] == c);
        if b < ZERO || b > NINE {
            return Err(ParseError::InvalidDigit);
        }
        let d: u64 = (b - ZERO) as u64;
        proof {
            let next = digits.take(i - start + 1);
            assert(next.drop_last() =~= digits.take(i - start));
            assert(next.last() == c);
            assert(digit_value(c) == d);
        }
        if !overflow {
            if acc > (u64::MAX - d) / 10 {
                overflow = true;
            } else {
                acc = acc * 10 + d;
            }
        }
        i = i + 1;
    }
    assert(digits.take(n - start) =~= digits);
    if overflow {
        Err(ParseError::PosOverflow)
    } else {
        Ok(acc)
    }
}

/// A 64-bit counter or sequence number in its wire form: the canonical decimal
/// text of its value, which is what a response carries.
#[derive(Debug, PartialEq, Eq, Hash)]
pub struct WireInteger {
    text: String,
}

impl Clone for WireInteger {
    fn clone(&self) -> (copy: Self)
        ensures
            copy@ == self@,
    {
        proof {
            use_type_invariant(self);
        }
        WireInteger { text: self.text.clone() }
    }
}

impl View for WireInteger {
    type V = Seq<char>;

    closed spec fn view(&self) -> Seq<char> {
        self.text@
    }
}

impl WireInteger {
    #[verifier::type_invariant]
    closed spec fn is_canonical(self) -> bool {
        exists|value: u64| self.text@ == decimal_text(value as nat)
    }

    /// The number that the text denotes.
    pub open spec fn spec_value(&self) -> nat {
        digits_value(self@)
    }

    /// The wire form of `value`.
    pub fn new(value: u64) -> (wire: Self)
        ensures
            wire@ == decimal_text(value as nat),
            wire.spec_value() == value,
    {
        proof {
            lemma_decimal_text_value(value as nat);
        }
        WireInteger { text: encode(value) }
    }

    /// Reads a text as `decode` does and keeps the number in its canonical text.
    pub fn parse(text: &str) -> (parsed: Result<Self, ParseError>)
        ensures
            match spec_decode(text@) {
                Ok(value) => parsed matches Ok(wire) && wire@ == decimal_text(value as nat),
                Err(error) => parsed == Err::<Self, ParseError>(error),
            },
    {
        match decode(text) {
            Ok(value) => Ok(Self::new(value)),
            Err(error) => Err(error),
        }
    }

    /// The number that the text denotes.
    pub fn value(&self) -> (value: u64)
        ensures
            value == self.spec_value(),
            self@ == decimal_text(value as nat),
    {
        proof {
            use_type_invariant(self);
            let witness = choose|witness: u64| self.text@ == decimal_text(witness as nat);
            lemma_decode_encode(witness);
            lemma_decimal_text_value(witness as nat);
        }
        match decode(self.text.as_str()) {
            Ok(value) => value,
            Err(_) => vstd::pervasive::unreached(),
        }
    }

    /// The text, as it is written into a response.
    pub fn as_str(&self) -> (text: &str)
        ensures
            text@ == self@,
    {
        self.text.as_str()
    }

    /// The text, as it is written into a response.
    pub fn into_string(self) -> (text: String)
        ensures
            text@ == self@,
    {
        self.text
    }
}

} // verus!

//! Hexadecimal text around a binary payload.
//!
//! A payload is written as two lower-case digits per byte. On the way back
//! white space is dropped first, and digits of either case are read.

use vstd::prelude::*;

verus! {

/// Why a text is not a run of hexadecimal digit pairs.
#[derive(Debug, Clone, Copy, PartialEq, Eq, Structural)]
pub enum HexError {
    /// The byte at `index`, which as a character is `c`, is no hexadecimal digit.
    InvalidHexCharacter { c: char, index: usize },
    /// The number of digits is odd.
    OddLength,
    /// The number of digits does not fit the place they are decoded into.
    InvalidStringLength,
}

/// The bytes that count as white space: space, tab, line feed, form feed and
/// carriage return.
pub open spec fn is_whitespace(b: u8) -> bool {
    b == 0x20 || b == 0x09 || b == 0x0a || b == 0x0c || b == 0x0d
}

/// `s` without its white space, the other bytes in their order.
pub open spec fn without_whitespace(s: Seq<u8>) -> Seq<u8> {
    s.filter(|b: u8| !is_whitespace(b))
}

/// The number that the hexadecimal digit `b` stands for, in either case.
pub open spec fn digit_value(b: u8) -> Option<u8> {
    if 0x30 <= b <= 0x39 {
        Some((b - 0x30) as u8)
    } else if 0x41 <= b <= 0x46 {
        Some((b - 0x41 + 10) as u8)
    } else if 0x61 <= b <= 0x66 {
        Some((b - 0x61 + 10) as u8)
    } else {
        None
    }
}

/// How many hexadecimal digits `s` begins with.
pub open spec fn leading_digits(s: Seq<u8>) -> nat
    decreases s.len(),
{
    if s.len() == 0 || digit_value(s[0]) is None {
        0
    } else {
        1 + leading_digits(s.drop_first())
    }
}

/// The byte written as the digit pair `hi`, `lo`.
pub open spec fn pair_value(hi: u8, lo: u8) -> u8 {
    (digit_value(hi).unwrap() * 16 + digit_value(lo).unwrap()) as u8
}

/// What the digits `s` decode to: one byte for each pair, or the first
/// fault met. An odd length is found before any bad digit.
pub open spec fn decoded(s: Seq<u8>) -> Result<Seq<u8>, HexError> {
    if s.len() % 2 != 0 {
        Err(HexError::OddLength)
    } else if leading_digits(s) < s.len() {
        Err(
            HexError::InvalidHexCharacter {
                c: s[leading_digits(s) as int] as char,
                index: leading_digits(s) as usize,
            },
        )
    } else {
        Ok(Seq::new((s.len() / 2) as nat, |k: int| pair_value(s[2 * k], s[2 * k + 1])))
    }
}

/// The lower-case digit for a number below 16.
pub open spec fn lower_digit(n: u8) -> u8 {
    if n < 10 {
        (0x30 + n) as u8
    } else {
        (0x61 + n - 10) as u8
    }
}

/// `data` as hexadecimal text: for each byte its high half, then its low half.
pub open spec fn hex_text(data: Seq<u8>) -> Seq<u8> {
    Seq::new(
        2 * data.len(),
        |i: int|
            lower_digit(
                if i % 2 == 0 {
                    data[i / 2] / 16
                } else {
                    data[i / 2] % 16
                },
            ),
    )
}

/// The message of [`HexError::InvalidHexCharacter`] for the character `c` at
/// `index`, as the `hex` crate words it.
pub uninterp spec fn invalid_character_text(c: char, index: usize) -> Seq<char>;

impl HexError {
    /// The message for this fault.
    pub open spec fn text(self) -> Seq<char> {
        match self {
            HexError::InvalidHexCharacter { c, index } => invalid_character_text(c, index),
            HexError::OddLength => "Odd number of digits"@,
            HexError::InvalidStringLength => "Invalid string length"@,
        }
    }
}

/// `hex::decode` on `digits`, its error written as a [`HexError`].
///
/// Trusted: the result is `decoded(digits@)`. That is, a text of odd length
/// is refused as such; otherwise the pairs are read from the left, the first
/// byte that is no digit is reported with its position, and a text of digits
/// alone gives one byte for each pair, the first digit being the high half.
#[verifier::external_body]
pub(crate) fn hex_decode(digits: &[u8]) -> (r: Result<Vec<u8>, HexError>)
    ensures
        match r {
            Ok(bytes) => decoded(digits@) == Ok::<Seq<u8>, HexError>(bytes@),
            Err(e) => decoded(digits@) == Err::<Seq<u8>, HexError>(e),
        },
{
    match ::hex::decode(digits) {
        Ok(bytes) => Ok(bytes),
        Err(::hex::FromHexError::InvalidHexCharacter { c, index }) => Err(
            HexError::InvalidHexCharacter { c, index },
        ),
        Err(::hex::FromHexError::OddLength) => Err(HexError::OddLength),
        Err(::hex::FromHexError::InvalidStringLength) => Err(HexError::InvalidStringLength),
    }
}

/// `hex::encode` on `data`, as the bytes of the text it returns.
///
/// Trusted: the result is `hex_text(data@)`, two lower-case digits for each
/// byte, the high half first.
#[verifier::external_body]
pub(crate) fn hex_encode(data: &[u8]) -> (r: Vec<u8>)
    ensures
        r@ == hex_text(data@),
{
    ::hex::encode(data).into_bytes()
}

/// The message that `hex::FromHexError` displays for the fault `e`.
///
/// Trusted: the two fixed messages are as stated; the message for a bad
/// character, which shows the character escaped and its position, is
/// `invalid_character_text`.
#[verifier::external_body]
pub(crate) fn hex_error_text(e: &HexError) -> (r: String)
    ensures
        match *e {
            HexError::InvalidHexCharacter { c, index } => r@ == invalid_character_text(c, index),
            HexError::OddLength => r@ == "Odd number of digits"@,
            HexError::InvalidStringLength => r@ == "Invalid string length"@,
        },
{
    let outside = match *e {
        HexError::InvalidHexCharacter { c, index } => ::hex::FromHexError::InvalidHexCharacter {
            c,
            index,
        },
        HexError::OddLength => ::hex::FromHexError::OddLength,
        HexError::InvalidStringLength => ::hex::FromHexError::InvalidStringLength,
    };
    format!("{}", outside)
}

/// Whether `b` is white space.
pub fn is_whitespace_byte(b: u8) -> (r: bool)
    ensures
        r == is_whitespace(b),
{
    b == 0x20 || b == 0x09 || b == 0x0a || b == 0x0c || b == 0x0d
}

/// Copies `input` without its white space.
pub fn strip_whitespace(input: &[u8]) -> (r: Vec<u8>)
    ensures
        r@ == without_whitespace(input@),
{
    let mut kept: Vec<u8> = Vec::new();
    let mut i: usize = 0;
    proof {
        reveal(Seq::filter);
    }
    while i < input.len()
        invariant
            i <= input.len(),
            kept@ == without_whitespace(input@.take(i as int)),
        decreases input.len() - i,
    {
        let b: u8 = input[i];
        proof {
            assert(input@.take(i + 1) =~= input@.take(i as int).push(b));
            input@.take(i as int).lemma_filter_push(b, |b: u8| !is_whitespace(b));
        }
        if !is_whitespace_byte(b) {
            kept.push(b);
        }
        i += 1;
    }
    proof {
        assert(input@.take(i as int) =~= input@);
    }
    kept
}

/// Reads a hexadecimal text back into the bytes it stands for. White space
/// anywhere in `input` is passed over; digits may be of either case.
pub fn unwrap_hex(input: &[u8]) -> (r: Result<Vec<u8>, HexError>)
    ensures
        match r {
            Ok(bytes) => decoded(without_whitespace(input@)) == Ok::<Seq<u8>, HexError>(bytes@),
            Err(e) => decoded(without_whitespace(input@)) == Err::<Seq<u8>, HexError>(e),
        },
{
    let digits = strip_whitespace(input);
    hex_decode(digits.as_slice())
}

/// Appends `data` to `output` as one line of hexadecimal text.
pub fn write_hex_line(data: &[u8], output: &mut Vec<u8>)
    ensures
        final(output)@ == old(output)@ + hex_text(data@).push(0x0a),
{
    let mut text = hex_encode(data);
    text.push(0x0a);
    output.append(&mut text);
}

/// `b` in upper case, where it is a lower-case letter.
pub open spec fn upper_case(b: u8) -> u8 {
    if 0x61 <= b <= 0x7a {
        (b - 0x20) as u8
    } else {
        b
    }
}

/// The leading digits of a text are digits, they are at most the text, and
/// the byte after them, if there is one, is no digit.
pub proof fn lemma_leading_digits(s: Seq<u8>)
    ensures
        leading_digits(s) <= s.len(),
        forall|j: int| 0 <= j < leading_digits(s) ==> digit_value(#[trigger] s[j]) is Some,
        leading_digits(s) < s.len() ==> digit_value(s[leading_digits(s) as int]) is None,
    decreases s.len(),
{
    if s.len() != 0 && digit_value(s[0]) is Some {
        let rest = s.drop_first();
        lemma_leading_digits(rest);
        assert forall|j: int| 0 <= j < leading_digits(s) implies digit_value(
            #[trigger] s[j],
        ) is Some by {
            if j > 0 {
                assert(s[j] == rest[j - 1]);
            }
        }
        if leading_digits(s) < s.len() {
            assert(s[leading_digits(s) as int] == rest[leading_digits(rest) as int]);
        }
    }
}

/// A text of digits alone has them all as its leading digits.
pub proof fn lemma_all_digits(s: Seq<u8>)
    requires
        forall|j: int| 0 <= j < s.len() ==> digit_value(#[trigger] s[j]) is Some,
    ensures
        leading_digits(s) == s.len(),
{
    lemma_leading_digits(s);
}

/// Reading back what was written gives the payload: for every `data`,
/// decoding its hexadecimal text succeeds with `data` itself.
pub proof fn lemma_hex_round_trip(data: Seq<u8>)
    ensures
        decoded(hex_text(data)) == Ok::<Seq<u8>, HexError>(data),
{
    let text = hex_text(data);
    assert forall|j: int| 0 <= j < text.len() implies digit_value(#[trigger] text[j]) is Some by {
        let b = data[j / 2];
        assert(b / 16 < 16 && b % 16 < 16);
    }
    lemma_all_digits(text);
    let back = decoded(text)->Ok_0;
    assert(back.len() == data.len());
    assert forall|k: int| 0 <= k < data.len() implies back[k] == data[k] by {
        let b = data[k];
        assert((2 * k) / 2 == k && (2 * k) % 2 == 0);
        assert((2 * k + 1) / 2 == k && (2 * k + 1) % 2 == 1);
        assert(text[2 * k] == lower_digit(b / 16));
        assert(text[2 * k + 1] == lower_digit(b % 16));
        assert(digit_value(lower_digit(b / 16)) == Some(b / 16));
        assert(digit_value(lower_digit(b % 16)) == Some(b % 16));
        assert((b / 16) * 16 + b % 16 == b);
    }
    assert(back =~= data);
}

/// Hexadecimal text holds no white space.
pub proof fn lemma_hex_text_is_dense(data: Seq<u8>)
    ensures
        without_whitespace(hex_text(data)) == hex_text(data),
{
    let text = hex_text(data);
    let keep = |b: u8| !is_whitespace(b);
    assert forall|j: int| 0 <= j < text.len() implies keep(#[trigger] text[j]) by {
        let b = data[j / 2];
        assert(b / 16 < 16 && b % 16 < 16);
    }
    lemma_filter_keeps_all(text);
}

/// A text without white space is left as it is.
pub proof fn lemma_filter_keeps_all(s: Seq<u8>)
    requires
        forall|j: int| 0 <= j < s.len() ==> !is_whitespace(#[trigger] s[j]),
    ensures
        without_whitespace(s) == s,
    decreases s.len(),
{
    reveal(Seq::filter);
    if s.len() != 0 {
        lemma_filter_keeps_all(s.drop_last());
        assert(s.drop_last().push(s.last()) =~= s);
    }
}

/// White space between two parts of a text changes nothing of what is read.
pub proof fn lemma_whitespace_ignored(before: Seq<u8>, space: Seq<u8>, after: Seq<u8>)
    requires
        forall|j: int| 0 <= j < space.len() ==> is_whitespace(#[trigger] space[j]),
    ensures
        without_whitespace(before + space + after) == without_whitespace(before + after),
{
    let keep = |b: u8| !is_whitespace(b);
    Seq::filter_distributes_over_add(before + space, after, keep);
    Seq::filter_distributes_over_add(before, space, keep);
    Seq::filter_distributes_over_add(before, after, keep);
    space.lemma_all_neg_filter_empty(keep);
    assert(space.filter(keep).len() == 0);
    assert(before.filter(keep) + space.filter(keep) =~= before.filter(keep));
}

/// The line that [`write_hex_line`] writes is read back by [`unwrap_hex`] as
/// the payload it was written from.
pub proof fn lemma_hex_line_round_trip(data: Seq<u8>)
    ensures
        decoded(without_whitespace(hex_text(data).push(0x0a))) == Ok::<Seq<u8>, HexError>(data),
{
    let text = hex_text(data);
    let keep = |b: u8| !is_whitespace(b);
    text.lemma_filter_push(0x0a, keep);
    lemma_hex_text_is_dense(data);
    lemma_hex_round_trip(data);
}

/// Digits are read alike in either case: a text that decodes still decodes,
/// and to the same bytes, when its letters are put in upper case.
pub proof fn lemma_case_insensitive(s: Seq<u8>)
    requires
        decoded(s) is Ok,
    ensures
        decoded(s.map_values(|b: u8| upper_case(b))) == decoded(s),
{
    let upper = s.map_values(|b: u8| upper_case(b));
    lemma_leading_digits(s);
    assert forall|j: int| 0 <= j < upper.len() implies digit_value(#[trigger] upper[j])
        == digit_value(s[j]) by {
        assert(digit_value(s[j]) is Some);
    }
    lemma_all_digits(upper);
    assert(decoded(upper)->Ok_0 =~= decoded(s)->Ok_0);
}

} // verus!

//! Text and bytes: UTF-8 encoding and decoding, equality of strings, decimal numerals.

use vstd::prelude::*;
use vstd::string::*;
use vstd::utf8::*;

verus! {

/// The UTF-8 encoding of `text`: the bytes that stand for it on the wire and in a file.
pub open spec fn utf8(text: Seq<char>) -> Seq<u8> {
    encode_utf8(text)
}

/// True when every character of `text` is an ASCII character.
pub open spec fn is_ascii_text(text: Seq<char>) -> bool {
    is_ascii_chars(text)
}

/// The message that a `Utf8Error` displays when `std::str::from_utf8` rejects `bytes`.
/// It says how many bytes were well formed and, where known, how long the faulty
/// sequence is; only its dependence on `bytes` is used here.
pub uninterp spec fn utf8_error_text(bytes: Seq<u8>) -> Seq<char>;

/// Calls `std::str::from_utf8` on `bytes`.
///
/// Trusted, not proved: the call succeeds exactly when `bytes` is well-formed UTF-8,
/// and the text that it then hands back is the one that these bytes are the
/// encoding of; when it fails, the error that it reports, written out by its
/// `Display`, is `utf8_error_text(bytes)`.
#[verifier::external_body]
fn from_utf8(bytes: &[u8]) -> (decoded: Result<&str, String>)
    ensures
        decoded is Ok <==> valid_utf8(bytes@),
        decoded matches Ok(text) ==> utf8(text@) == bytes@,
        decoded matches Err(complaint) ==> complaint@ == utf8_error_text(bytes@),
{
    match std::str::from_utf8(bytes) {
        Ok(text) => Ok(text),
        Err(error) => Err(format!("{}", error)),
    }
}

/// Decodes `bytes`: the text that they encode, where they are well-formed UTF-8, or
/// else the decoder's complaint about them.
pub fn decode_text(bytes: &[u8]) -> (decoded: Result<String, String>)
    ensures
        match decoded {
            Ok(text) => valid_utf8(bytes@) && text@ == decode_utf8(bytes@),
            Err(complaint) => !valid_utf8(bytes@) && complaint@ == utf8_error_text(bytes@),
        },
{
    match from_utf8(bytes) {
        Ok(text) => {
            proof {
                encode_utf8_decode_utf8(text@);
            }
            Ok(text.to_owned())
        },
        Err(complaint) => Err(complaint),
    }
}

/// Two texts with the same encoding are the same text.
pub proof fn lemma_utf8_injective(a: Seq<char>, b: Seq<char>)
    requires
        utf8(a) == utf8(b),
    ensures
        a == b,
{
    encode_utf8_decode_utf8(a);
    encode_utf8_decode_utf8(b);
}

/// The encoding of a concatenation is the concatenation of the encodings.
pub proof fn lemma_utf8_concat(a: Seq<char>, b: Seq<char>)
    ensures
        utf8(a + b) == utf8(a) + utf8(b),
    decreases a.len(),
{
    if a.len() == 0 {
        assert(a + b =~= b);
        assert(utf8(a) + utf8(b) =~= utf8(b));
    } else {
        lemma_utf8_concat(a.drop_first(), b);
        assert((a + b).drop_first() =~= a.drop_first() + b);
        assert(utf8(a + b) =~= utf8(a) + utf8(b));
    }
}

/// An ASCII text is encoded one byte for each character, the byte being the
/// character's code.
pub proof fn lemma_utf8_ascii(text: Seq<char>)
    requires
        is_ascii_text(text),
    ensures
        utf8(text).len() == text.len(),
        forall|i: int| 0 <= i < text.len() ==> #[trigger] utf8(text)[i] == text[i] as u8,
{
    is_ascii_chars_encode_utf8(text);
}

/// The encoding of a character that is no ASCII character holds no ASCII byte, and
/// the encoding of an ASCII character is the one byte of its code.
proof fn lemma_scalar_bytes(scalar: u32)
    requires
        is_scalar(scalar),
    ensures
        scalar < 0x80 ==> encode_scalar(scalar) == seq![scalar as u8],
        scalar >= 0x80 ==> forall|i: int|
            0 <= i < encode_scalar(scalar).len() ==> #[trigger] encode_scalar(scalar)[i] >= 0x80,
{
    if has_width_1_encoding(scalar) {
        assert((scalar & 0x7F) as u8 == scalar as u8) by (bit_vector)
            requires
                scalar <= 0x7F,
        ;
    } else {
        assert((0xC0 | ((scalar >> 6) & 0x1F) as u8) >= 0x80) by (bit_vector);
        assert((0xE0 | ((scalar >> 12) & 0x0F) as u8) >= 0x80) by (bit_vector);
        assert((0xF0 | ((scalar >> 18) & 0x7) as u8) >= 0x80) by (bit_vector);
        assert((0x80 | (scalar & 0x3F) as u8) >= 0x80) by (bit_vector);
        assert((0x80 | ((scalar >> 6) & 0x3F) as u8) >= 0x80) by (bit_vector);
        assert((0x80 | ((scalar >> 12) & 0x3F) as u8) >= 0x80) by (bit_vector);
    }
}

/// An ASCII byte stands in the encoding of a text only where the text holds the
/// character with that code.
pub proof fn lemma_utf8_lacks(text: Seq<char>, byte: u8)
    requires
        byte < 0x80,
        forall|j: int| 0 <= j < text.len() ==> text[j] as u32 != byte as u32,
    ensures
        forall|i: int| 0 <= i < utf8(text).len() ==> utf8(text)[i] != byte,
    decreases text.len(),
{
    if text.len() > 0 {
        char_is_scalar(text[0]);
        lemma_scalar_bytes(text[0] as u32);
        lemma_utf8_lacks(text.drop_first(), byte);
        let first = encode_scalar(text[0] as u32);
        let rest = utf8(text.drop_first());
        assert forall|i: int| 0 <= i < utf8(text).len() implies utf8(text)[i] != byte by {
            if i < first.len() {
                assert(utf8(text)[i] == first[i]);
            } else {
                assert(utf8(text)[i] == rest[i - first.len()]);
            }
        }
    }
}

/// Whether `a` and `b` are the same text.
pub fn str_eq(a: &str, b: &str) -> (same: bool)
    ensures
        same == (a@ == b@),
{
    let x = a.as_bytes();
    let y = b.as_bytes();
    if x.len() != y.len() {
        return false;
    }
    let mut i: usize = 0;
    while i < x.len()
        invariant
            x.len() == y.len(),
            i <= x.len(),
            forall|j: int| 0 <= j < i ==> x@[j] == y@[j],
            x@ == utf8(a@),
            y@ == utf8(b@),
        decreases x.len() - i,
    {
        if x[i] != y[i] {
            return false;
        }
        i = i + 1;
    }
    proof {
        assert(x@ =~= y@);
        lemma_utf8_injective(a@, b@);
    }
    true
}

/// The character that writes the digit `d`, for `d` below ten.
pub open spec fn digit(d: nat) -> char {
    if d == 0 {
        '0'
    } else if d == 1 {
        '1'
    } else if d == 2 {
        '2'
    } else if d == 3 {
        '3'
    } else if d == 4 {
        '4'
    } else if d == 5 {
        '5'
    } else if d == 6 {
        '6'
    } else if d == 7 {
        '7'
    } else if d == 8 {
        '8'
    } else {
        '9'
    }
}

/// The decimal numeral of `n`, without sign or leading zeros.
pub open spec fn decimal(n: nat) -> Seq<char>
    decreases n,
{
    if n < 10 {
        seq![digit(n)]
    } else {
        decimal(n / 10) + seq![digit(n % 10)]
    }
}

/// The one-character text of the digit `d`.
fn digit_text(d: usize) -> (text: &'static str)
    requires
        d < 10,
    ensures
        text@ == seq![digit(d as nat)],
{
    proof {
        reveal_strlit("0");
        reveal_strlit("1");
        reveal_strlit("2");
        reveal_strlit("3");
        reveal_strlit("4");
        reveal_strlit("5");
        reveal_strlit("6");
        reveal_strlit("7");
        reveal_strlit("8");
        reveal_strlit("9");
    }
    let text = if d == 0 {
        "0"
    } else if d == 1 {
        "1"
    } else if d == 2 {
        "2"
    } else if d == 3 {
        "3"
    } else if d == 4 {
        "4"
    } else if d == 5 {
        "5"
    } else if d == 6 {
        "6"
    } else if d == 7 {
        "7"
    } else if d == 8 {
        "8"
    } else {
        "9"
    };
    assert(text@ =~= seq![digit(d as nat)]);
    text
}

/// Writes `n` in decimal.
pub fn decimal_string(n: usize) -> (text: String)
    ensures
        text@ == decimal(n as nat),
    decreases n,
{
    if n < 10 {
        String::from_str(digit_text(n))
    } else {
        let mut text = decimal_string(n / 10);
        text.append(digit_text(n % 10));
        text
    }
}

/// The number that a numeral stands for, read digit by digit from the left.
pub open spec fn numeral_value(numeral: Seq<char>) -> nat
    decreases numeral.len(),
{
    if numeral.len() == 0 {
        0
    } else {
        numeral_value(numeral.drop_last()) * 10 + (numeral.last() as nat - '0' as nat) as nat
    }
}

/// The decimal numeral of a number stands for that number, and has no leading zero
/// unless the number is zero.
pub proof fn lemma_decimal_denotes(n: nat)
    ensures
        numeral_value(decimal(n)) == n,
        n > 0 ==> decimal(n)[0] != '0',
    decreases n,
{
    if n < 10 {
        assert(decimal(n).drop_last() =~= Seq::<char>::empty());
        assert(numeral_value(decimal(n).drop_last()) == 0);
    } else {
        lemma_decimal_denotes(n / 10);
        lemma_decimal_digits(n / 10);
        assert(decimal(n).drop_last() =~= decimal(n / 10));
    }
}

/// A decimal numeral is made of the ten digits and of nothing else.
pub proof fn lemma_decimal_digits(n: nat)
    ensures
        decimal(n).len() >= 1,
        forall|i: int| 0 <= i < decimal(n).len() ==> '0' <= #[trigger] decimal(n)[i] <= '9',
    decreases n,
{
    if n >= 10 {
        lemma_decimal_digits(n / 10);
    }
}

} // verus!

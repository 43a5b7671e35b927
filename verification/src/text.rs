//! Text renderings of bytes and numbers: lowercase hexadecimal and decimal.
use vstd::prelude::*;
use vstd::string::*;

verus! {

/// The lowercase hexadecimal digit of a value below sixteen.
pub open spec fn hex_digit(n: int) -> char {
    if n == 0 {
        '0'
    } else if n == 1 {
        '1'
    } else if n == 2 {
        '2'
    } else if n == 3 {
        '3'
    } else if n == 4 {
        '4'
    } else if n == 5 {
        '5'
    } else if n == 6 {
        '6'
    } else if n == 7 {
        '7'
    } else if n == 8 {
        '8'
    } else if n == 9 {
        '9'
    } else if n == 10 {
        'a'
    } else if n == 11 {
        'b'
    } else if n == 12 {
        'c'
    } else if n == 13 {
        'd'
    } else if n == 14 {
        'e'
    } else {
        'f'
    }
}

/// Two lowercase hexadecimal digits per byte, high nibble first.
pub open spec fn hex_string(bytes: Seq<u8>) -> Seq<char> {
    Seq::new(
        2 * bytes.len(),
        |i: int|
            if i % 2 == 0 {
                hex_digit(bytes[i / 2] as int / 16)
            } else {
                hex_digit(bytes[i / 2] as int % 16)
            },
    )
}

/// The value of a hexadecimal digit, of either case; none for another character.
pub open spec fn hex_value(c: char) -> Option<int> {
    if '0' <= c && c <= '9' {
        Some(c as int - '0' as int)
    } else if 'a' <= c && c <= 'f' {
        Some(c as int - 'a' as int + 10)
    } else if 'A' <= c && c <= 'F' {
        Some(c as int - 'A' as int + 10)
    } else {
        None
    }
}

/// Whether a text is an even number of hexadecimal digits.
pub open spec fn is_hex(text: Seq<char>) -> bool {
    &&& text.len() % 2 == 0
    &&& forall|i: int| 0 <= i < text.len() ==> (#[trigger] hex_value(text[i])) is Some
}

/// The bytes that a hexadecimal text stands for.
pub open spec fn hex_bytes(text: Seq<char>) -> Seq<u8> {
    Seq::new(
        text.len() / 2,
        |i: int| (hex_value(text[2 * i])->0 * 16 + hex_value(text[2 * i + 1])->0) as u8,
    )
}

/// Hexadecimal text reads back as the bytes it was made from.
pub proof fn lemma_hex_round_trip(bytes: Seq<u8>)
    ensures
        is_hex(hex_string(bytes)),
        hex_bytes(hex_string(bytes)) == bytes,
{
    let text = hex_string(bytes);
    assert forall|i: int| 0 <= i < text.len() implies (#[trigger] hex_value(text[i])) is Some by {
        let b = bytes[i / 2] as int;
        assert(0 <= b / 16 < 16 && 0 <= b % 16 < 16);
    }
    assert forall|i: int| 0 <= i < bytes.len() implies hex_bytes(text)[i] == bytes[i] by {
        let b = bytes[i] as int;
        assert(0 <= b / 16 < 16 && 0 <= b % 16 < 16);
        assert((2 * i) % 2 == 0 && (2 * i) / 2 == i);
        assert((2 * i + 1) % 2 == 1 && (2 * i + 1) / 2 == i);
        assert(hex_value(hex_digit(b / 16)) == Some(b / 16));
        assert(hex_value(hex_digit(b % 16)) == Some(b % 16));
        assert((b / 16) * 16 + b % 16 == b);
    }
    assert(hex_bytes(text) =~= bytes);
}

/// The hexadecimal text of a byte string begins with the two digits of the
/// first byte, and goes on with the text of the other bytes.
pub proof fn lemma_hex_first(bytes: Seq<u8>)
    requires
        bytes.len() > 0,
    ensures
        hex_string(bytes).len() >= 2,
        hex_string(bytes)[0] == hex_digit(bytes[0] as int / 16),
        hex_string(bytes)[1] == hex_digit(bytes[0] as int % 16),
        hex_string(bytes).skip(2) == hex_string(bytes.skip(1)),
        (hex_string(bytes)[0] == 'e' && hex_string(bytes)[1] == '1') <==> bytes[0] == 0xe1,
{
    let b = bytes[0] as int;
    assert(0 <= b / 16 < 16 && 0 <= b % 16 < 16);
    assert((b / 16 == 14 && b % 16 == 1) <==> b == 0xe1);
    assert forall|i: int| 0 <= i < hex_string(bytes.skip(1)).len() implies hex_string(bytes).skip(
        2,
    )[i] == hex_string(bytes.skip(1))[i] by {
        assert((i + 2) / 2 == i / 2 + 1);
        assert((i + 2) % 2 == i % 2);
    }
    assert(hex_string(bytes).skip(2) =~= hex_string(bytes.skip(1)));
}

/// Different byte strings never share a hexadecimal rendering.
pub proof fn lemma_hex_injective(a: Seq<u8>, b: Seq<u8>)
    requires
        hex_string(a) == hex_string(b),
    ensures
        a == b,
{
    lemma_hex_round_trip(a);
    lemma_hex_round_trip(b);
}

/// `hex::encode`: the lowercase hexadecimal text of a byte string, two
/// digits per byte from the table `0123456789abcdef`.
#[verifier::external_body]
pub(crate) fn hex_encode(bytes: &[u8]) -> (text: String)
    ensures
        text@ == hex_string(bytes@),
{
    hex::encode(bytes)
}

/// The error of `hex::decode`, which is carried along as it is.
#[verifier::external_type_specification]
#[verifier::external_body]
pub struct ExFromHexError(hex::FromHexError);

/// The error that `hex::decode` gives for a text that is no hexadecimal
/// text.
pub uninterp spec fn hex_failure(text: Seq<char>) -> hex::FromHexError;

/// `hex::decode`: the bytes that a text of hexadecimal digits of either
/// case stands for, two digits for a byte; an error for a text of odd
/// length or with another character in it, which depends on the text
/// alone.
#[verifier::external_body]
pub(crate) fn hex_decode(text: &str) -> (bytes: Result<Vec<u8>, hex::FromHexError>)
    ensures
        bytes is Ok <==> is_hex(text@),
        bytes is Ok ==> bytes->Ok_0@ == hex_bytes(text@),
        bytes is Err ==> bytes->Err_0 == hex_failure(text@),
{
    hex::decode(text)
}

/// What can be rendered as lowercase hexadecimal text.
pub trait ToHex {
    /// The bytes that are rendered.
    spec fn hex_source(&self) -> Seq<u8>;

    fn to_hex(&self) -> (text: String)
        ensures
            text@ == hex_string(self.hex_source()),
    ;
}

impl ToHex for Vec<u8> {
    open spec fn hex_source(&self) -> Seq<u8> {
        self@
    }

    fn to_hex(&self) -> (text: String) {
        hex_encode(self.as_slice())
    }
}

impl ToHex for &[u8] {
    open spec fn hex_source(&self) -> Seq<u8> {
        self@
    }

    fn to_hex(&self) -> (text: String) {
        hex_encode(*self)
    }
}

impl<const N: usize> ToHex for [u8; N] {
    open spec fn hex_source(&self) -> Seq<u8> {
        self@
    }

    fn to_hex(&self) -> (text: String) {
        hex_encode(self.as_slice())
    }
}

/// The character of a decimal digit.
pub open spec fn digit_char(d: int) -> char {
    hex_digit(d)
}

/// The decimal text of a natural number, without leading zeros.
pub open spec fn decimal(n: nat) -> Seq<char>
    decreases n,
{
    if n < 10 {
        seq![digit_char(n as int)]
    } else {
        decimal(n / 10).push(digit_char((n % 10) as int))
    }
}

/// The decimal text of an integer, with a minus sign before a negative one.
pub open spec fn signed_decimal(n: int) -> Seq<char> {
    if n < 0 {
        seq!['-'] + decimal((-n) as nat)
    } else {
        decimal(n as nat)
    }
}

fn digit_text(d: u128) -> (text: &'static str)
    requires
        d < 10,
    ensures
        text@ == seq![digit_char(d as int)],
{
    proof {
        reveal_strlit("0");
        reveal_strlit("1");
        reveal_strlit("2");
        reveal_strlit("3");
        reveal_strlit("4");
        reveal_strlit("5");
        reveal_strlit("6");
        reveal_strlit("7");
        reveal_strlit("8");
        reveal_strlit("9");
    }
    let text = if d == 0 {
        "0"
    } else if d == 1 {
        "1"
    } else if d == 2 {
        "2"
    } else if d == 3 {
        "3"
    } else if d == 4 {
        "4"
    } else if d == 5 {
        "5"
    } else if d == 6 {
        "6"
    } else if d == 7 {
        "7"
    } else if d == 8 {
        "8"
    } else {
        "9"
    };
    assert(text@ =~= seq![digit_char(d as int)]);
    text
}

/// Renders an unsigned number in decimal.
pub fn u128_to_string(n: u128) -> (text: String)
    ensures
        text@ == decimal(n as nat),
    decreases n,
{
    if n < 10 {
        digit_text(n).to_owned()
    } else {
        let mut text = u128_to_string(n / 10);
        text.append(digit_text(n % 10));
        text
    }
}

/// Renders an unsigned number in decimal.
pub fn u64_to_string(n: u64) -> (text: String)
    ensures
        text@ == decimal(n as nat),
{
    u128_to_string(n as u128)
}

/// Renders a signed number in decimal.
pub fn i128_to_string(n: i128) -> (text: String)
    ensures
        text@ == signed_decimal(n as int),
{
    if n < 0 {
        proof {
            reveal_strlit("-");
        }
        let magnitude: u128 = if n == i128::MIN {
            170141183460469231731687303715884105728u128
        } else {
            (-n) as u128
        };
        let mut text = "-".to_owned();
        let digits = u128_to_string(magnitude);
        text.append(digits.as_str());
        assert(text@ =~= seq!['-'] + decimal((-n) as nat));
        text
    } else {
        u128_to_string(n as u128)
    }
}

/// Renders a signed number in decimal.
pub fn i64_to_string(n: i64) -> (text: String)
    ensures
        text@ == signed_decimal(n as int),
{
    i128_to_string(n as i128)
}

/// The error of `String::from_utf8`, of which nothing is read.
#[verifier::external_type_specification]
#[verifier::external_body]
pub struct ExFromUtf8Error(std::string::FromUtf8Error);

/// `String::from_utf8`: the text that the bytes encode in UTF-8; an error
/// where the bytes are no valid UTF-8.
#[verifier::external_body]
fn string_from_utf8(bytes: Vec<u8>) -> (text: Result<String, std::string::FromUtf8Error>)
    ensures
        text is Ok <==> vstd::utf8::valid_utf8(bytes@),
        text is Ok ==> text->Ok_0@ == vstd::utf8::decode_utf8(bytes@),
{
    String::from_utf8(bytes)
}

/// The text that the bytes encode in UTF-8, where they encode one.
pub fn text_from_utf8(bytes: Vec<u8>) -> (text: Option<String>)
    ensures
        crate::views::opt_view(text) == utf8_text(bytes@),
{
    match string_from_utf8(bytes) {
        Ok(t) => Some(t),
        Err(_) => None,
    }
}

/// The text that a byte string encodes in UTF-8, where it encodes one.
pub open spec fn utf8_text(bytes: Seq<u8>) -> Option<Seq<char>> {
    if vstd::utf8::valid_utf8(bytes) {
        Some(vstd::utf8::decode_utf8(bytes))
    } else {
        None
    }
}

} // verus!

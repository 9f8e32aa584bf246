use vstd::prelude::*;
use vstd::utf8::*;
use base64::DecodeError;
use rand::OsRng;
use crate::error::{CmdipassError, ErrorKind};

verus! {

/// The error of `base64::decode`, which is carried and never looked into.
#[verifier::external_type_specification]
#[verifier::external_body]
pub struct ExDecodeError(DecodeError);

/// The generator `rand::OsRng`, which is carried and never looked into.
#[verifier::external_type_specification]
#[verifier::external_body]
pub struct ExOsRng(OsRng);

/// Text of the failure where the operating system has no randomness to give.
pub const NO_RANDOMNESS: &'static str = "The operating system offers no source of randomness.";

/// The standard base64 text of `bytes`, with padding.
pub uninterp spec fn base64_text(bytes: Seq<u8>) -> Seq<char>;

/// The bytes that `text` stands for in standard base64, if it is valid base64.
pub uninterp spec fn base64_bytes(text: Seq<char>) -> Option<Seq<u8>>;

/// The text that stands for `bytes` when invalid UTF-8 is replaced and not refused.
pub uninterp spec fn utf8_lossy_text(bytes: Seq<u8>) -> Seq<char>;

/// Calls `base64::encode`. Trusted: the result is the base64 text of `bytes`, and that text
/// decodes to `bytes` again.
#[verifier::external_body]
fn base64_encode(bytes: &[u8]) -> (text: String)
    ensures
        text@ == base64_text(bytes@),
        base64_bytes(text@) == Some(bytes@),
{
    base64::encode(bytes)
}

/// Calls `base64::decode`. Trusted: it succeeds exactly on valid base64, and then gives the
/// bytes that the text stands for.
#[verifier::external_body]
fn base64_decode(text: &str) -> (bytes: Result<Vec<u8>, DecodeError>)
    ensures
        bytes is Ok <==> base64_bytes(text@) is Some,
        bytes matches Ok(b) ==> base64_bytes(text@) == Some(b@),
{
    base64::decode(text)
}

/// Calls `rand::OsRng::new`. Nothing is promised of the generator; `None` when the operating
/// system offers no source of randomness.
#[verifier::external_body]
fn os_rng() -> (rng: Option<OsRng>) {
    OsRng::new().ok()
}

/// Calls `rand::Rng::fill_bytes`. Trusted: the buffer keeps its length. Nothing is promised of
/// the bytes.
#[verifier::external_body]
fn fill_random(rng: &mut OsRng, buffer: &mut Vec<u8>)
    ensures
        final(buffer)@.len() == old(buffer)@.len(),
{
    rand::Rng::fill_bytes(rng, buffer)
}

/// Calls `String::from_utf8_lossy`. Trusted: the result depends on the bytes alone, and is
/// their UTF-8 decoding where they are valid UTF-8.
#[verifier::external_body]
fn from_utf8_lossy(bytes: &[u8]) -> (text: String)
    ensures
        text@ == utf8_lossy_text(bytes@),
        valid_utf8(bytes@) ==> text@ == decode_utf8(bytes@),
{
    String::from_utf8_lossy(bytes).into_owned()
}

/// Calls `String::from_utf8`. Trusted: it succeeds exactly on valid UTF-8, and then gives the
/// decoded text.
#[verifier::external_body]
fn from_utf8(bytes: Vec<u8>) -> (text: Option<String>)
    ensures
        text is Some <==> valid_utf8(bytes@),
        text matches Some(t) ==> t@ == decode_utf8(bytes@),
{
    String::from_utf8(bytes).ok()
}

/// Whether two texts hold the same characters.
pub fn same_text(left: &str, right: &str) -> (equal: bool)
    ensures
        equal == (left@ == right@),
{
    left.to_owned() == right.to_owned()
}

/// Encodes bytes as standard base64.
pub fn encode(bytes: &[u8]) -> (text: String)
    ensures
        text@ == base64_text(bytes@),
        base64_bytes(text@) == Some(bytes@),
{
    base64_encode(bytes)
}

/// Decodes standard base64; `None` where `text` is not valid base64.
pub fn decode(text: &str) -> (bytes: Option<Vec<u8>>)
    ensures
        bytes is Some <==> base64_bytes(text@) is Some,
        bytes matches Some(b) ==> base64_bytes(text@) == Some(b@),
{
    match base64_decode(text) {
        Ok(b) => Some(b),
        Err(_) => None,
    }
}

/// Draws `count` bytes from the operating system's generator. Nothing is known of the bytes
/// but their number; the failure is that of a system without such a generator.
pub fn random_bytes(count: usize) -> (result: Result<Vec<u8>, CmdipassError>)
    ensures
        result matches Ok(bytes) ==> bytes@.len() == count,
        result matches Err(e) ==> e.has(ErrorKind::Crypto, NO_RANDOMNESS@),
{
    match os_rng() {
        Some(mut rng) => {
            let mut buffer: Vec<u8> = vec![0u8; count];
            fill_random(&mut rng, &mut buffer);
            Ok(buffer)
        },
        None => Err(CmdipassError::new(ErrorKind::Crypto, NO_RANDOMNESS)),
    }
}

/// The character for one digit.
pub open spec fn digit_text(digit: int) -> Seq<char> {
    if digit == 0 {
        "0"@
    } else if digit == 1 {
        "1"@
    } else if digit == 2 {
        "2"@
    } else if digit == 3 {
        "3"@
    } else if digit == 4 {
        "4"@
    } else if digit == 5 {
        "5"@
    } else if digit == 6 {
        "6"@
    } else if digit == 7 {
        "7"@
    } else if digit == 8 {
        "8"@
    } else {
        "9"@
    }
}

/// A number written to a base from 2 to 10, without leading zeros.
pub open spec fn numeral_text(value: nat, base: nat) -> Seq<char>
    decreases value,
    via numeral_text_decreases
{
    if base < 2 || value < base {
        digit_text(value as int)
    } else {
        numeral_text(value / base, base) + digit_text((value % base) as int)
    }
}

#[via_fn]
proof fn numeral_text_decreases(value: nat, base: nat) {
    if !(base < 2 || value < base) {
        lemma_quotient_is_less(value, base);
    }
}

/// A number from the base on gets less when it is divided by the base.
proof fn lemma_quotient_is_less(value: nat, base: nat)
    requires
        2 <= base <= value,
    ensures
        value / base < value,
{
    assert(value / base < value) by (nonlinear_arith)
        requires
            2 <= base <= value,
    ;
}

fn digit(value: u64) -> (text: &'static str)
    requires
        value < 10,
    ensures
        text@ == digit_text(value as int),
{
    if value == 0 {
        "0"
    } else if value == 1 {
        "1"
    } else if value == 2 {
        "2"
    } else if value == 3 {
        "3"
    } else if value == 4 {
        "4"
    } else if value == 5 {
        "5"
    } else if value == 6 {
        "6"
    } else if value == 7 {
        "7"
    } else if value == 8 {
        "8"
    } else {
        "9"
    }
}

/// Writes a number to a base from 2 to 10.
pub(crate) fn numeral(value: u64, base: u64) -> (text: String)
    requires
        2 <= base <= 10,
    ensures
        text@ == numeral_text(value as nat, base as nat),
    decreases value,
{
    if value < base {
        String::from_str(digit(value))
    } else {
        proof {
            lemma_quotient_is_less(value as nat, base as nat);
        }
        let mut text = numeral(value / base, base);
        text.append(digit(value % base));
        text
    }
}

/// Writes a number in decimal.
pub fn decimal(value: u64) -> (text: String)
    ensures
        text@ == numeral_text(value as nat, 10),
{
    numeral(value, 10)
}

/// The view of a text that may be absent.
pub open spec fn text_view(text: Option<String>) -> Option<Seq<char>> {
    match text {
        Some(t) => Some(t@),
        None => None,
    }
}

/// Reads bytes as text, replacing what is not valid UTF-8.
pub fn text_lossy(bytes: &[u8]) -> (text: String)
    ensures
        text@ == utf8_lossy_text(bytes@),
        valid_utf8(bytes@) ==> text@ == decode_utf8(bytes@),
{
    from_utf8_lossy(bytes)
}

/// Reads bytes as text; `None` where they are not valid UTF-8.
pub fn text_strict(bytes: Vec<u8>) -> (text: Option<String>)
    ensures
        text is Some <==> valid_utf8(bytes@),
        text matches Some(t) ==> t@ == decode_utf8(bytes@),
{
    from_utf8(bytes)
}

} // verus!

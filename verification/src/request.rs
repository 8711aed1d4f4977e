//! The request line and the bounded buffer that holds it.
//!
//! One line is written per cycle: a GET for a path that ends in the
//! temperature with two decimals, and a Host header for the fixed endpoint.

use vstd::prelude::*;
use vstd::utf8::*;
use crate::link::{remote, Endpoint};

verus! {

/// How many bytes a request buffer can hold.
pub const REQUEST_CAPACITY: usize = 128;

/// What the request line holds before the temperature.
pub const REQUEST_HEAD: &'static str = "GET /temp/1/";

/// What the request line holds after the temperature.
pub const REQUEST_TAIL: &'static str = " HTTP/1.0\r\nHost: 192.168.1.103:8080\r\n\r\n";

/// The character of a decimal digit.
pub open spec fn digit_char(digit: nat) -> char
    recommends
        digit < 10,
{
    (48 + digit) as u8 as char
}

/// The decimal digits of a number, most significant first and without leading
/// zeros.
pub open spec fn decimal_text(n: nat) -> Seq<char>
    decreases n,
{
    if n < 10 {
        seq![digit_char(n)]
    } else {
        decimal_text(n / 10).push(digit_char(n % 10))
    }
}

/// A count of hundredths written as a number with two decimals.
pub open spec fn fixed2_text(hundredths: nat) -> Seq<char> {
    decimal_text(hundredths / 100) + seq![
        '.',
        digit_char(hundredths / 10 % 10),
        digit_char(hundredths % 10),
    ]
}

/// An endpoint as a Host header names it: the four parts of the address in
/// decimal with dots between them, a colon, and the port in decimal.
pub open spec fn host_text(endpoint: Endpoint) -> Seq<char> {
    decimal_text(endpoint.a as nat) + seq!['.'] + decimal_text(endpoint.b as nat) + seq!['.']
        + decimal_text(endpoint.c as nat) + seq!['.'] + decimal_text(endpoint.d as nat) + seq![':']
        + decimal_text(endpoint.port as nat)
}

/// The request line that reports a temperature given in hundredths of a degree.
pub open spec fn request_text(hundredths: nat) -> Seq<char> {
    REQUEST_HEAD@ + fixed2_text(hundredths) + REQUEST_TAIL@
}

/// The fixed-capacity string of `heapless`. Nothing inside it is visible to
/// contracts; `buffer_text` stands for what it holds.
#[verifier::external_type_specification]
#[verifier::external_body]
pub struct ExBoundedString<const N: usize>(heapless::String<N>);

/// The characters that a request buffer holds, in order.
pub uninterp spec fn buffer_text(buffer: heapless::String<128>) -> Seq<char>;

/// How many bytes of a request buffer are in use.
pub open spec fn buffer_len(buffer: heapless::String<128>) -> nat {
    encode_utf8(buffer_text(buffer)).len()
}

/// `heapless::String::new`: the new buffer is empty.
#[verifier::external_body]
pub(crate) fn new_buffer() -> (buffer: heapless::String<128>)
    ensures
        buffer_text(buffer) == Seq::<char>::empty(),
{
    heapless::String::new()
}

/// `heapless::String::clear`: the buffer is empty afterwards.
#[verifier::external_body]
fn clear_buffer(buffer: &mut heapless::String<128>)
    ensures
        buffer_text(*final(buffer)) == Seq::<char>::empty(),
{
    buffer.clear()
}

/// `heapless::String::push_str`: the text is appended when its bytes fit in
/// what is left of the capacity; otherwise the buffer stays as it was and the
/// call fails.
#[verifier::external_body]
fn push_text(buffer: &mut heapless::String<128>, text: &str) -> (pushed: Result<(), ()>)
    ensures
        pushed is Ok <==> buffer_len(*old(buffer)) + encode_utf8(text@).len() <= REQUEST_CAPACITY,
        pushed is Ok ==> buffer_text(*final(buffer)) == buffer_text(*old(buffer)) + text@,
        pushed is Err ==> buffer_text(*final(buffer)) == buffer_text(*old(buffer)),
{
    buffer.push_str(text)
}

/// `heapless::String::push`: the character is appended when its bytes fit in
/// what is left of the capacity; otherwise the buffer stays as it was and the
/// call fails.
#[verifier::external_body]
fn push_char(buffer: &mut heapless::String<128>, c: char) -> (pushed: Result<(), ()>)
    ensures
        pushed is Ok <==> buffer_len(*old(buffer)) + encode_utf8(seq![c]).len() <= REQUEST_CAPACITY,
        pushed is Ok ==> buffer_text(*final(buffer)) == buffer_text(*old(buffer)).push(c),
        pushed is Err ==> buffer_text(*final(buffer)) == buffer_text(*old(buffer)),
{
    buffer.push(c)
}

/// A decimal digit is an ASCII character.
proof fn lemma_digit_is_ascii(digit: nat)
    requires
        digit < 10,
    ensures
        '0' <= digit_char(digit) <= '9',
        digit_char(digit) as nat == 48 + digit,
{
}

/// Ten to the power `exponent`.
spec fn pow10(exponent: nat) -> nat
    decreases exponent,
{
    if exponent == 0 {
        1
    } else {
        10 * pow10((exponent - 1) as nat)
    }
}

/// The digits of a number are ASCII characters, and a number below ten to the
/// power `width` has at most `width` of them.
proof fn lemma_decimal_text(n: nat, width: nat)
    requires
        width >= 1,
        n < pow10(width),
    ensures
        is_ascii_chars(decimal_text(n)),
        1 <= decimal_text(n).len() <= width,
    decreases n,
{
    reveal_with_fuel(pow10, 2);
    lemma_digit_is_ascii(n % 10);
    if n >= 10 {
        if width == 1 {
            assert(false);
        }
        lemma_decimal_text(n / 10, (width - 1) as nat);
    }
}

/// An ASCII text takes one byte per character.
proof fn lemma_ascii_len(text: Seq<char>)
    requires
        is_ascii_chars(text),
    ensures
        encode_utf8(text).len() == text.len(),
{
    is_ascii_chars_encode_utf8(text);
}

/// Appends one decimal digit.
fn push_digit(buffer: &mut heapless::String<128>, digit: u32)
    requires
        digit < 10,
        is_ascii_chars(buffer_text(*old(buffer))),
        buffer_text(*old(buffer)).len() < REQUEST_CAPACITY,
    ensures
        buffer_text(*final(buffer)) == buffer_text(*old(buffer)).push(digit_char(digit as nat)),
        is_ascii_chars(buffer_text(*final(buffer))),
{
    let c: char = (48u8 + digit as u8) as char;
    proof {
        lemma_digit_is_ascii(digit as nat);
        lemma_ascii_len(buffer_text(*buffer));
        lemma_ascii_len(seq![c]);
    }
    let _ = push_char(buffer, c);
}

/// Appends the decimal digits of a number.
fn push_decimal(buffer: &mut heapless::String<128>, n: u32)
    requires
        is_ascii_chars(buffer_text(*old(buffer))),
        buffer_text(*old(buffer)).len() + decimal_text(n as nat).len() <= REQUEST_CAPACITY,
    ensures
        buffer_text(*final(buffer)) == buffer_text(*old(buffer)) + decimal_text(n as nat),
        is_ascii_chars(buffer_text(*final(buffer))),
    decreases n,
{
    if n >= 10 {
        push_decimal(buffer, n / 10);
    }
    push_digit(buffer, n % 10);
}

/// The Host header of every request line names the endpoint that the socket is
/// opened to.
pub proof fn lemma_host_header_names_remote()
    ensures
        REQUEST_TAIL@ == " HTTP/1.0\r\nHost: "@ + host_text(remote()) + "\r\n\r\n"@,
{
    reveal_strlit(" HTTP/1.0\r\nHost: 192.168.1.103:8080\r\n\r\n");
    reveal_strlit(" HTTP/1.0\r\nHost: ");
    reveal_strlit("\r\n\r\n");
    reveal_with_fuel(decimal_text, 4);
    assert(decimal_text(192) =~= seq!['1', '9', '2']);
    assert(decimal_text(168) =~= seq!['1', '6', '8']);
    assert(decimal_text(1) =~= seq!['1']);
    assert(decimal_text(103) =~= seq!['1', '0', '3']);
    assert(decimal_text(8080) =~= seq!['8', '0', '8', '0']);
    assert(host_text(remote()) =~= seq![
        '1', '9', '2', '.', '1', '6', '8', '.', '1', '.', '1', '0', '3', ':', '8', '0', '8', '0',
    ]);
    assert(REQUEST_TAIL@ =~= " HTTP/1.0\r\nHost: "@ + host_text(remote()) + "\r\n\r\n"@);
}

/// Every request line is plain ASCII and fits the buffer with room to spare:
/// it takes one byte per character, and at most 62 of them.
pub proof fn lemma_request_fits(hundredths: u32)
    ensures
        is_ascii_chars(request_text(hundredths as nat)),
        encode_utf8(request_text(hundredths as nat)).len() == request_text(hundredths as nat).len(),
        request_text(hundredths as nat).len() <= 62,
        62 <= REQUEST_CAPACITY,
{
    reveal_strlit("GET /temp/1/");
    reveal_strlit(" HTTP/1.0\r\nHost: 192.168.1.103:8080\r\n\r\n");
    assert(pow10(8) == 100_000_000) by {
        reveal_with_fuel(pow10, 9);
    }
    lemma_decimal_text(hundredths as nat / 100, 8);
    lemma_digit_is_ascii(hundredths as nat / 10 % 10);
    lemma_digit_is_ascii(hundredths as nat % 10);
    lemma_ascii_len(request_text(hundredths as nat));
}

/// Overwrites the buffer with the request line that reports a temperature
/// given in hundredths of a degree. Whatever the buffer held before is gone.
pub fn write_http_request_string(buffer: &mut heapless::String<128>, hundredths: u32)
    ensures
        buffer_text(*final(buffer)) == request_text(hundredths as nat),
{
    clear_buffer(buffer);
    proof {
        reveal_strlit("GET /temp/1/");
        reveal_strlit(" HTTP/1.0\r\nHost: 192.168.1.103:8080\r\n\r\n");
        lemma_ascii_len(buffer_text(*buffer));
        lemma_ascii_len(REQUEST_HEAD@);
        assert(pow10(8) == 100_000_000) by {
            reveal_with_fuel(pow10, 9);
        }
        lemma_decimal_text(hundredths as nat / 100, 8);
    }
    let _ = push_text(buffer, REQUEST_HEAD);
    push_decimal(buffer, hundredths / 100);
    proof {
        lemma_ascii_len(buffer_text(*buffer));
        lemma_ascii_len(seq!['.']);
    }
    let _ = push_char(buffer, '.');
    push_digit(buffer, hundredths / 10 % 10);
    push_digit(buffer, hundredths % 10);
    proof {
        lemma_ascii_len(buffer_text(*buffer));
        lemma_ascii_len(REQUEST_TAIL@);
    }
    let _ = push_text(buffer, REQUEST_TAIL);
}

} // verus!

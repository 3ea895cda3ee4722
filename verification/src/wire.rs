//! Wire framing: every message is written as a header block that declares
//! the exact UTF-8 byte length of the body, followed by the body itself.

use vstd::prelude::*;
use vstd::string::StrSliceExecFns;
use vstd::string::StringExecFns;
use vstd::utf8::encode_utf8;
use crate::json::push_char;

verus! {

/// Decimal digit character for a value below 10.
pub open spec fn decimal_digit(v: nat) -> char {
    if v == 0 {
        '0'
    } else if v == 1 {
        '1'
    } else if v == 2 {
        '2'
    } else if v == 3 {
        '3'
    } else if v == 4 {
        '4'
    } else if v == 5 {
        '5'
    } else if v == 6 {
        '6'
    } else if v == 7 {
        '7'
    } else if v == 8 {
        '8'
    } else {
        '9'
    }
}

/// Numeric value of a decimal digit character; zero for anything else.
pub open spec fn digit_value(c: char) -> nat {
    if c == '0' {
        0
    } else if c == '1' {
        1
    } else if c == '2' {
        2
    } else if c == '3' {
        3
    } else if c == '4' {
        4
    } else if c == '5' {
        5
    } else if c == '6' {
        6
    } else if c == '7' {
        7
    } else if c == '8' {
        8
    } else if c == '9' {
        9
    } else {
        0
    }
}

/// The decimal numeral of `n`, most significant digit first, with no leading
/// zeros (a single `'0'` for zero).
pub open spec fn decimal_of(n: nat) -> Seq<char>
    decreases n,
{
    if n < 10 {
        seq![decimal_digit(n)]
    } else {
        decimal_of(n / 10) + seq![decimal_digit(n % 10)]
    }
}

/// The number a sequence of decimal digit characters denotes.
pub open spec fn decimal_value(s: Seq<char>) -> nat
    decreases s.len(),
{
    if s.len() == 0 {
        0
    } else {
        decimal_value(s.drop_last()) * 10 + digit_value(s.last())
    }
}

/// Reading a numeral back yields the number it was written from.
pub proof fn lemma_decimal_round_trip(n: nat)
    ensures
        decimal_value(decimal_of(n)) == n,
    decreases n,
{
    if n < 10 {
        assert(decimal_of(n) == seq![decimal_digit(n)]);
        assert(decimal_of(n).drop_last() =~= Seq::<char>::empty());
        assert(decimal_of(n).last() == decimal_digit(n));
        assert(decimal_value(Seq::<char>::empty()) == 0);
        assert(decimal_value(decimal_of(n)) == digit_value(decimal_digit(n)));
        assert(digit_value(decimal_digit(n)) == n);
    } else {
        lemma_decimal_round_trip(n / 10);
        assert(decimal_of(n).drop_last() =~= decimal_of(n / 10));
        assert(decimal_of(n).last() == decimal_digit(n % 10));
        assert(decimal_value(decimal_of(n)) == decimal_value(decimal_of(n / 10)) * 10
            + digit_value(decimal_digit(n % 10)));
        assert(digit_value(decimal_digit(n % 10)) == n % 10);
        assert(n / 10 * 10 + n % 10 == n) by (nonlinear_arith);
    }
}

fn decimal_digit_char(v: u64) -> (c: char)
    requires
        v < 10,
    ensures
        c == decimal_digit(v as nat),
{
    if v == 0 {
        '0'
    } else if v == 1 {
        '1'
    } else if v == 2 {
        '2'
    } else if v == 3 {
        '3'
    } else if v == 4 {
        '4'
    } else if v == 5 {
        '5'
    } else if v == 6 {
        '6'
    } else if v == 7 {
        '7'
    } else if v == 8 {
        '8'
    } else {
        '9'
    }
}

/// Appends the decimal numeral of `n` to `out`.
fn push_decimal(out: &mut String, n: u64)
    ensures
        final(out)@ == old(out)@ + decimal_of(n as nat),
    decreases n,
{
    if n >= 10 {
        push_decimal(out, n / 10);
    }
    let d = decimal_digit_char(n % 10);
    push_char(out, d);
    proof {
        assert(out@ =~= old(out)@ + decimal_of(n as nat));
    }
}

/// The header block that precedes a body of `n` UTF-8 bytes.
pub open spec fn header_text(n: nat) -> Seq<char> {
    "Content-Length: "@ + decimal_of(n)
        + "\r\nContent-Type: application/vscode-jsonrpc; charset=utf-8\r\n\r\n"@
}

/// One complete frame: the header declaring the body's exact UTF-8 byte
/// length, then the body, with no trailing delimiter.
pub open spec fn frame_text(body: Seq<char>) -> Seq<char> {
    header_text(encode_utf8(body).len()) + body
}

/// Serializes one message body into a complete frame.
pub fn frame_message(body: &str) -> (r: String)
    ensures
        r@ == frame_text(body@),
{
    let bytes = body.as_bytes_vec();
    let n: usize = bytes.len();
    let mut out = String::new();
    out.append("Content-Length: ");
    push_decimal(&mut out, n as u64);
    out.append("\r\nContent-Type: application/vscode-jsonrpc; charset=utf-8\r\n\r\n");
    out.append(body);
    proof {
        assert(out@ =~= frame_text(body@));
    }
    out
}

/// Law: a frame is its header followed by its body, and the numeral the
/// header declares denotes exactly the body's UTF-8 byte length.
pub proof fn lemma_frame_declares_body_byte_length(body: Seq<char>)
    ensures
        frame_text(body) == header_text(encode_utf8(body).len()) + body,
        decimal_value(decimal_of(encode_utf8(body).len())) == encode_utf8(body).len(),
{
    lemma_decimal_round_trip(encode_utf8(body).len());
}

} // verus!

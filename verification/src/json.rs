//! Canonical compact JSON text: string escaping and envelope shells.
//!
//! Every wire message is rendered through these functions, so the exact text
//! of a report is pinned down by the spec functions here together with the
//! payload spec functions in [`crate::messaging`] and [`crate::logging`].

use vstd::prelude::*;
use vstd::string::StrSliceExecFns;
use vstd::string::StringExecFns;

verus! {

/// Hexadecimal digit character for a value below 16.
pub open spec fn hex_digit(v: u32) -> char {
    if v == 0 {
        '0'
    } else if v == 1 {
        '1'
    } else if v == 2 {
        '2'
    } else if v == 3 {
        '3'
    } else if v == 4 {
        '4'
    } else if v == 5 {
        '5'
    } else if v == 6 {
        '6'
    } else if v == 7 {
        '7'
    } else if v == 8 {
        '8'
    } else if v == 9 {
        '9'
    } else if v == 10 {
        'a'
    } else if v == 11 {
        'b'
    } else if v == 12 {
        'c'
    } else if v == 13 {
        'd'
    } else if v == 14 {
        'e'
    } else {
        'f'
    }
}

/// The text a single character contributes to a JSON string literal: the
/// two-character escapes for quote, backslash and the common control
/// characters, a `\u00..` escape for the remaining control characters, and
/// the character itself otherwise.
pub open spec fn escaped_char(c: char) -> Seq<char> {
    if c == '"' {
        "\\\""@
    } else if c == '\\' {
        "\\\\"@
    } else if c == '\n' {
        "\\n"@
    } else if c == '\r' {
        "\\r"@
    } else if c == '\t' {
        "\\t"@
    } else if (c as u32) < 32 {
        "\\u00"@ + seq![hex_digit((c as u32) / 16), hex_digit((c as u32) % 16)]
    } else {
        seq![c]
    }
}

/// A character sequence with every character escaped for use inside a JSON
/// string literal.
pub open spec fn json_escaped(s: Seq<char>) -> Seq<char>
    decreases s.len(),
{
    if s.len() == 0 {
        Seq::empty()
    } else {
        json_escaped(s.drop_last()) + escaped_char(s.last())
    }
}

/// A complete JSON string literal: the escaped text between double quotes.
pub open spec fn json_string_of(s: Seq<char>) -> Seq<char> {
    seq!['"'] + json_escaped(s) + seq!['"']
}

/// The inside of a JSON array of string literals, comma separated.
pub open spec fn json_strings_joined(items: Seq<Seq<char>>) -> Seq<char>
    decreases items.len(),
{
    if items.len() == 0 {
        Seq::empty()
    } else if items.len() == 1 {
        json_string_of(items[0])
    } else {
        json_strings_joined(items.drop_last()) + seq![','] + json_string_of(items.last())
    }
}

/// A JSON array holding one string literal per item.
pub open spec fn json_string_array(items: Seq<Seq<char>>) -> Seq<char> {
    seq!['['] + json_strings_joined(items) + seq![']']
}

/// The body of an envelope that carries a params payload, already rendered
/// as JSON text.
pub open spec fn envelope_json(jsonrpc: Seq<char>, method: Seq<char>, params_json: Seq<char>) -> Seq<char> {
    "{\"jsonrpc\":"@ + json_string_of(jsonrpc) + ",\"method\":"@ + json_string_of(method)
        + ",\"params\":"@ + params_json + "}"@
}

/// The body of an envelope without params; the termination envelope uses it.
pub open spec fn envelope_json_no_params(jsonrpc: Seq<char>, method: Seq<char>) -> Seq<char> {
    "{\"jsonrpc\":"@ + json_string_of(jsonrpc) + ",\"method\":"@ + json_string_of(method) + "}"@
}

/// Relies on `String::push`: appends the given character to the end of the
/// string.
#[verifier::external_body]
pub(crate) fn push_char(out: &mut String, c: char)
    ensures
        final(out)@ == old(out)@.push(c),
{
    out.push(c);
}

fn hex_digit_char(v: u32) -> (c: char)
    requires
        v < 16,
    ensures
        c == hex_digit(v),
{
    if v == 0 {
        '0'
    } else if v == 1 {
        '1'
    } else if v == 2 {
        '2'
    } else if v == 3 {
        '3'
    } else if v == 4 {
        '4'
    } else if v == 5 {
        '5'
    } else if v == 6 {
        '6'
    } else if v == 7 {
        '7'
    } else if v == 8 {
        '8'
    } else if v == 9 {
        '9'
    } else if v == 10 {
        'a'
    } else if v == 11 {
        'b'
    } else if v == 12 {
        'c'
    } else if v == 13 {
        'd'
    } else if v == 14 {
        'e'
    } else {
        'f'
    }
}

fn push_escaped_char(out: &mut String, c: char)
    ensures
        final(out)@ == old(out)@ + escaped_char(c),
{
    if c == '"' {
        out.append("\\\"");
    } else if c == '\\' {
        out.append("\\\\");
    } else if c == '\n' {
        out.append("\\n");
    } else if c == '\r' {
        out.append("\\r");
    } else if c == '\t' {
        out.append("\\t");
    } else {
        let v: u32 = c as u32;
        if v < 32 {
            out.append("\\u00");
            let high = hex_digit_char(v / 16);
            let low = hex_digit_char(v % 16);
            push_char(out, high);
            push_char(out, low);
            proof {
                assert(out@ =~= old(out)@ + escaped_char(c));
            }
        } else {
            push_char(out, c);
            proof {
                assert(out@ =~= old(out)@ + escaped_char(c));
            }
        }
    }
}

/// Appends the JSON string literal for `s` to `out`.
pub fn push_json_string(out: &mut String, s: &str)
    ensures
        final(out)@ == old(out)@ + json_string_of(s@),
{
    push_char(out, '"');
    proof {
        assert(out@ =~= old(out)@ + seq!['"'] + json_escaped(s@.take(0)));
    }
    let n = s.unicode_len();
    let mut i: usize = 0;
    while i < n
        invariant
            n == s@.len(),
            i <= n,
            out@ == old(out)@ + seq!['"'] + json_escaped(s@.take(i as int)),
        decreases n - i,
    {
        let c = s.get_char(i);
        push_escaped_char(out, c);
        proof {
            assert(s@.take(i as int + 1).drop_last() =~= s@.take(i as int));
            assert(s@.take(i as int + 1).last() == s@[i as int]);
            assert(out@ =~= old(out)@ + seq!['"'] + json_escaped(s@.take(i as int + 1)));
        }
        i = i + 1;
    }
    push_char(out, '"');
    proof {
        assert(s@.take(n as int) =~= s@);
        assert(out@ =~= old(out)@ + json_string_of(s@));
    }
}

/// Appends the JSON array of string literals for `items` to `out`.
pub fn push_json_string_array(out: &mut String, items: &Vec<String>)
    ensures
        final(out)@ == old(out)@ + json_string_array(items.deep_view()),
{
    push_char(out, '[');
    let mut i: usize = 0;
    while i < items.len()
        invariant
            i <= items@.len(),
            items.deep_view().len() == items@.len(),
            out@ == old(out)@ + seq!['['] + json_strings_joined(items.deep_view().take(i as int)),
        decreases items@.len() - i,
    {
        if i > 0 {
            push_char(out, ',');
        }
        push_json_string(out, items[i].as_str());
        proof {
            let dv = items.deep_view();
            assert(dv.take(i as int + 1).drop_last() =~= dv.take(i as int));
            assert(dv.take(i as int + 1).last() == dv[i as int]);
            assert(dv[i as int] == items@[i as int]@);
            assert(out@ =~= old(out)@ + seq!['['] + json_strings_joined(dv.take(i as int + 1)));
        }
        i = i + 1;
    }
    push_char(out, ']');
    proof {
        assert(items.deep_view().take(items@.len() as int) =~= items.deep_view());
        assert(out@ =~= old(out)@ + json_string_array(items.deep_view()));
    }
}

} // verus!

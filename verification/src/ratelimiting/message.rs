//! The messages of header faults.

use vstd::prelude::*;
use vstd::string::{StrSliceExecFns, StringExecFns};
use crate::ratelimiting::headers::{HeaderFault, HeaderParseError};

verus! {

/// How a character is written between quotes: with a backslash before a
/// quote or a backslash, as `\t`, `\n` or `\r` where it is a tab, a line feed
/// or a carriage return, and as it is otherwise.
pub open spec fn escaped_char(c: char) -> Seq<char> {
    if c == '"' {
        seq!['\\', '"']
    } else if c == '\\' {
        seq!['\\', '\\']
    } else if c == '\t' {
        seq!['\\', 't']
    } else if c == '\n' {
        seq!['\\', 'n']
    } else if c == '\r' {
        seq!['\\', 'r']
    } else {
        seq![c]
    }
}

/// How a text is written between quotes.
pub open spec fn escaped(s: Seq<char>) -> Seq<char>
    decreases s.len(),
{
    if s.len() == 0 {
        Seq::empty()
    } else {
        escaped(s.drop_last()) + escaped_char(s.last())
    }
}

/// A text between quotes.
pub open spec fn quoted(s: Seq<char>) -> Seq<char> {
    seq!['"'] + escaped(s) + seq!['"']
}

/// The character of a digit.
pub open spec fn digit_char(d: nat) -> char {
    if d == 0 {
        '0'
    } else if d == 1 {
        '1'
    } else if d == 2 {
        '2'
    } else if d == 3 {
        '3'
    } else if d == 4 {
        '4'
    } else if d == 5 {
        '5'
    } else if d == 6 {
        '6'
    } else if d == 7 {
        '7'
    } else if d == 8 {
        '8'
    } else {
        '9'
    }
}

/// A byte in decimal digits, without zeros before them.
pub open spec fn byte_text(b: u8) -> Seq<char> {
    if b < 10 {
        seq![digit_char(b as nat)]
    } else if b < 100 {
        seq![digit_char((b / 10) as nat), digit_char((b % 10) as nat)]
    } else {
        seq![
            digit_char((b / 100) as nat),
            digit_char(((b / 10) % 10) as nat),
            digit_char((b % 10) as nat),
        ]
    }
}

/// Bytes in decimal, with a comma and a space between them.
pub open spec fn byte_texts(bytes: Seq<u8>) -> Seq<char>
    decreases bytes.len(),
{
    if bytes.len() == 0 {
        Seq::empty()
    } else if bytes.len() == 1 {
        byte_text(bytes[0])
    } else {
        byte_texts(bytes.drop_last()) + seq![',', ' '] + byte_text(bytes.last())
    }
}

/// Bytes as a list between square brackets.
pub open spec fn listed(bytes: Seq<u8>) -> Seq<char> {
    seq!['['] + byte_texts(bytes) + seq![']']
}

/// What a header fault says in words.
pub open spec fn fault_message(fault: HeaderFault) -> Seq<char> {
    match fault {
        HeaderFault::NoHeaders => "No headers are present"@,
        HeaderFault::HeaderMissing { name } => "At least one header, "@ + quoted(name)
            + ", is missing"@,
        HeaderFault::HeaderNotUtf8 { name, value } => "The header "@ + quoted(name)
            + " has invalid UTF-16: "@ + listed(value),
        HeaderFault::ParsingBoolText { name, text } => "The header "@ + quoted(name)
            + " should be a bool but isn't: "@ + quoted(text),
        HeaderFault::ParsingFloatText { name, text } => "The header "@ + quoted(name)
            + " should be a float but isn't: "@ + quoted(text),
        HeaderFault::ParsingIntText { name, text } => "The header "@ + quoted(name)
            + " should be an integer but isn't: "@ + quoted(text),
    }
}

/// Writes a digit.
fn push_digit(out: &mut String, d: u8)
    requires
        d <= 9,
    ensures
        final(out)@ == old(out)@ + seq![digit_char(d as nat)],
{
    proof {
        reveal_strlit("0");
        reveal_strlit("1");
        reveal_strlit("2");
        reveal_strlit("3");
        reveal_strlit("4");
        reveal_strlit("5");
        reveal_strlit("6");
        reveal_strlit("7");
        reveal_strlit("8");
        reveal_strlit("9");
    }
    let digit = if d == 0 {
        "0"
    } else if d == 1 {
        "1"
    } else if d == 2 {
        "2"
    } else if d == 3 {
        "3"
    } else if d == 4 {
        "4"
    } else if d == 5 {
        "5"
    } else if d == 6 {
        "6"
    } else if d == 7 {
        "7"
    } else if d == 8 {
        "8"
    } else {
        "9"
    };
    assert(digit@ =~= seq![digit_char(d as nat)]);
    out.append(digit);
}

/// Writes a byte in decimal.
fn push_byte(out: &mut String, b: u8)
    ensures
        final(out)@ == old(out)@ + byte_text(b),
{
    if b >= 100 {
        push_digit(out, b / 100);
    }
    if b >= 10 {
        push_digit(out, (b / 10) % 10);
    }
    push_digit(out, b % 10);
    assert(out@ =~= old(out)@ + byte_text(b));
}

/// Writes bytes as a list between square brackets.
fn push_listed(out: &mut String, bytes: &Vec<u8>)
    ensures
        final(out)@ == old(out)@ + listed(bytes@),
{
    proof {
        reveal_strlit("[");
        reveal_strlit("]");
        reveal_strlit(", ");
    }
    out.append("[");
    let ghost start = out@;
    let mut i: usize = 0;
    while i < bytes.len()
        invariant
            i <= bytes@.len(),
            out@ == start + byte_texts(bytes@.subrange(0, i as int)),
        decreases bytes@.len() - i,
    {
        let ghost done = bytes@.subrange(0, i as int);
        let ghost next = bytes@.subrange(0, i + 1);
        proof {
            assert(next.drop_last() =~= done);
            assert(next.last() == bytes@[i as int]);
        }
        if i > 0 {
            proof {
                reveal_strlit(", ");
            }
            out.append(", ");
        }
        push_byte(out, bytes[i]);
        proof {
            if i > 0 {
                assert(out@ =~= start + (byte_texts(done) + seq![',', ' '] + byte_text(
                    bytes@[i as int],
                )));
            } else {
                assert(byte_texts(done) =~= Seq::<char>::empty());
                assert(out@ =~= start + byte_text(bytes@[i as int]));
            }
        }
        i = i + 1;
    }
    proof {
        assert(bytes@.subrange(0, i as int) =~= bytes@);
    }
    out.append("]");
    assert(out@ =~= old(out)@ + listed(bytes@));
}

/// Writes a text between quotes.
fn push_quoted(out: &mut String, text: &str)
    ensures
        final(out)@ == old(out)@ + quoted(text@),
{
    proof {
        reveal_strlit("\"");
        reveal_strlit("\\\"");
        reveal_strlit("\\\\");
        reveal_strlit("\\t");
        reveal_strlit("\\n");
        reveal_strlit("\\r");
    }
    out.append("\"");
    let ghost start = out@;
    let n = text.unicode_len();
    let mut i: usize = 0;
    while i < n
        invariant
            n == text@.len(),
            i <= n,
            out@ == start + escaped(text@.subrange(0, i as int)),
        decreases n - i,
    {
        let ghost done = text@.subrange(0, i as int);
        let ghost next = text@.subrange(0, i + 1);
        proof {
            assert(next.drop_last() =~= done);
            assert(next.last() == text@[i as int]);
        }
        let c = text.get_char(i);
        proof {
            reveal_strlit("\\\"");
            reveal_strlit("\\\\");
            reveal_strlit("\\t");
            reveal_strlit("\\n");
            reveal_strlit("\\r");
        }
        if c == '"' {
            out.append("\\\"");
            assert("\\\""@ =~= escaped_char(c));
        } else if c == '\\' {
            out.append("\\\\");
            assert("\\\\"@ =~= escaped_char(c));
        } else if c == '\t' {
            out.append("\\t");
            assert("\\t"@ =~= escaped_char(c));
        } else if c == '\n' {
            out.append("\\n");
            assert("\\n"@ =~= escaped_char(c));
        } else if c == '\r' {
            out.append("\\r");
            assert("\\r"@ =~= escaped_char(c));
        } else {
            let one = text.substring_char(i, i + 1);
            assert(one@ =~= escaped_char(c));
            out.append(one);
        }
        assert(out@ =~= start + escaped(next));
        i = i + 1;
    }
    proof {
        assert(text@.subrange(0, i as int) =~= text@);
    }
    out.append("\"");
    assert(out@ =~= old(out)@ + quoted(text@));
}

impl HeaderParseError {
    /// What the fault says in words. Names and texts stand between quotes;
    /// bytes stand as a list of decimal numbers.
    pub fn message(&self) -> (message: String)
        ensures
            message@ == fault_message(self@),
    {
        match self {
            HeaderParseError::NoHeaders => String::from_str("No headers are present"),
            HeaderParseError::HeaderMissing { name } => {
                let mut out = String::from_str("At least one header, ");
                push_quoted(&mut out, name);
                out.append(", is missing");
                out
            },
            HeaderParseError::HeaderNotUtf8 { name, value, .. } => {
                let mut out = String::from_str("The header ");
                push_quoted(&mut out, name);
                out.append(" has invalid UTF-16: ");
                push_listed(&mut out, value);
                out
            },
            HeaderParseError::ParsingBoolText { name, text } => {
                let mut out = String::from_str("The header ");
                push_quoted(&mut out, name);
                out.append(" should be a bool but isn't: ");
                push_quoted(&mut out, text.as_str());
                out
            },
            HeaderParseError::ParsingFloatText { name, text } => {
                let mut out = String::from_str("The header ");
                push_quoted(&mut out, name);
                out.append(" should be a float but isn't: ");
                push_quoted(&mut out, text.as_str());
                out
            },
            HeaderParseError::ParsingIntText { name, text } => {
                let mut out = String::from_str("The header ");
                push_quoted(&mut out, name);
                out.append(" should be an integer but isn't: ");
                push_quoted(&mut out, text.as_str());
                out
            },
        }
    }
}

} // verus!

//! JSON string literals: how a string is written as one, and how a literal
//! is read back.

use vstd::prelude::*;

verus! {

/// The hexadecimal digit for `d`, in lower case.
pub open spec fn hex_digit(d: nat) -> char
    recommends
        d < 16,
{
    seq!['0', '1', '2', '3', '4', '5', '6', '7', '8', '9', 'a', 'b', 'c', 'd', 'e', 'f'][d as int]
}

/// How one character stands in a string literal. The double quote and the
/// backslash get a backslash in front; backspace, tab, line feed, form feed
/// and carriage return are written as a backslash and a letter; every other
/// character below the space as `\u00` and two hexadecimal digits; and every
/// other character as it is.
pub open spec fn escaped_char(c: char) -> Seq<char> {
    if c == '"' {
        seq!['\\', '"']
    } else if c == '\\' {
        seq!['\\', '\\']
    } else if c as u32 == 0x08 {
        seq!['\\', 'b']
    } else if c as u32 == 0x09 {
        seq!['\\', 't']
    } else if c as u32 == 0x0a {
        seq!['\\', 'n']
    } else if c as u32 == 0x0c {
        seq!['\\', 'f']
    } else if c as u32 == 0x0d {
        seq!['\\', 'r']
    } else if (c as u32) < 0x20 {
        seq![
            '\\',
            'u',
            '0',
            '0',
            hex_digit((c as u32 / 16) as nat),
            hex_digit((c as u32 % 16) as nat),
        ]
    } else {
        seq![c]
    }
}

/// How a string stands between the quotes of a literal: character by
/// character.
pub open spec fn escaped_text(s: Seq<char>) -> Seq<char>
    decreases s.len(),
{
    if s.len() == 0 {
        Seq::empty()
    } else {
        escaped_char(s[0]) + escaped_text(s.drop_first())
    }
}

/// The JSON string literal for `s`: the escaped text between double quotes.
pub open spec fn string_literal_text(s: Seq<char>) -> Seq<char> {
    seq!['"'] + escaped_text(s) + seq!['"']
}

/// The character that a backslash and `c` stand for, where they stand for
/// one.
pub open spec fn short_escape(c: char) -> Option<char> {
    if c == '"' {
        Some('"')
    } else if c == '\\' {
        Some('\\')
    } else if c == 'b' {
        Some(0x08u32 as char)
    } else if c == 't' {
        Some(0x09u32 as char)
    } else if c == 'n' {
        Some(0x0au32 as char)
    } else if c == 'f' {
        Some(0x0cu32 as char)
    } else if c == 'r' {
        Some(0x0du32 as char)
    } else {
        None
    }
}

/// The number that a hexadecimal digit in lower case stands for.
pub open spec fn hex_value(c: char) -> Option<nat> {
    if '0' as u32 <= c as u32 <= '9' as u32 {
        Some((c as u32 - '0' as u32) as nat)
    } else if 'a' as u32 <= c as u32 <= 'f' as u32 {
        Some((c as u32 - 'a' as u32 + 10) as nat)
    } else {
        None
    }
}

/// The character below the space that `\u00` and the two digits `high` and
/// `low` stand for, where they stand for one.
pub open spec fn long_escape(high: char, low: char) -> Option<char> {
    match (hex_value(high), hex_value(low)) {
        (Some(h), Some(l)) => if 16 * h + l < 0x20 {
            Some(((16 * h + l) as u32) as char)
        } else {
            None
        },
        _ => None,
    }
}

/// What was read, with `c` in front of it.
pub open spec fn with_first(c: char, read: Option<(Seq<char>, Seq<char>)>) -> Option<
    (Seq<char>, Seq<char>),
> {
    match read {
        Some((content, rest)) => Some((seq![c] + content, rest)),
        None => None,
    }
}

/// Reads the inside of a literal from the front of `text`, up to the double
/// quote that closes it: the string it stands for and what follows the
/// quote. `None` where no quote closes it, where a character below the space
/// stands in it as it is, or where a backslash starts none of the escapes
/// that `escaped_char` writes.
pub open spec fn read_escaped_text(text: Seq<char>) -> Option<(Seq<char>, Seq<char>)>
    decreases text.len(),
{
    if text.len() == 0 {
        None
    } else if text[0] == '"' {
        Some((Seq::empty(), text.drop_first()))
    } else if text[0] == '\\' {
        if text.len() < 2 {
            None
        } else if text[1] == 'u' {
            if text.len() < 6 || text[2] != '0' || text[3] != '0' {
                None
            } else {
                match long_escape(text[4], text[5]) {
                    Some(c) => with_first(c, read_escaped_text(text.skip(6))),
                    None => None,
                }
            }
        } else {
            match short_escape(text[1]) {
                Some(c) => with_first(c, read_escaped_text(text.skip(2))),
                None => None,
            }
        }
    } else if (text[0] as u32) < 0x20 {
        None
    } else {
        with_first(text[0], read_escaped_text(text.drop_first()))
    }
}

/// Reads a string literal from the front of `text`: the string it stands for
/// and what follows it.
pub open spec fn read_string_literal(text: Seq<char>) -> Option<(Seq<char>, Seq<char>)> {
    if text.len() > 0 && text[0] == '"' {
        read_escaped_text(text.drop_first())
    } else {
        None
    }
}

/// An escaped character is read back as the character.
proof fn lemma_escaped_char_reads_back(c: char, tail: Seq<char>)
    ensures
        read_escaped_text(escaped_char(c) + tail) == with_first(c, read_escaped_text(tail)),
{
    let e = escaped_char(c);
    let text = e + tail;
    if e.len() == 1 {
        assert(text[0] == c);
        assert(text.drop_first() =~= tail);
    } else if e.len() == 2 {
        assert(text[0] == '\\' && text[1] == e[1]);
        assert(short_escape(e[1]) == Some(c));
        assert(text.skip(2) =~= tail);
    } else {
        let v = c as u32;
        assert(text[0] == '\\' && text[1] == 'u' && text[2] == '0' && text[3] == '0');
        assert(text[4] == hex_digit((v / 16) as nat) && text[5] == hex_digit((v % 16) as nat));
        assert(hex_value(hex_digit((v / 16) as nat)) == Some((v / 16) as nat));
        assert(hex_value(hex_digit((v % 16) as nat)) == Some((v % 16) as nat));
        assert(16 * (v / 16) + v % 16 == v);
        assert(long_escape(text[4], text[5]) == Some(c));
        assert(text.skip(6) =~= tail);
    }
}

/// Escaped text that a double quote closes is read back as the string it was
/// written from, whatever follows the quote.
proof fn lemma_escaped_text_reads_back(s: Seq<char>, rest: Seq<char>)
    ensures
        read_escaped_text(escaped_text(s) + seq!['"'] + rest) == Some((s, rest)),
    decreases s.len(),
{
    let text = escaped_text(s) + seq!['"'] + rest;
    if s.len() == 0 {
        assert(text[0] == '"');
        assert(text.drop_first() =~= rest);
    } else {
        let tail = escaped_text(s.drop_first()) + seq!['"'] + rest;
        lemma_escaped_text_reads_back(s.drop_first(), rest);
        lemma_escaped_char_reads_back(s[0], tail);
        assert(text =~= escaped_char(s[0]) + tail);
        assert(seq![s[0]] + s.drop_first() =~= s);
    }
}

/// A string literal is read back as the string it was written from, whatever
/// follows it: writing a string as a literal loses nothing of it.
pub proof fn lemma_string_literal_reads_back(s: Seq<char>, rest: Seq<char>)
    ensures
        read_string_literal(string_literal_text(s) + rest) == Some((s, rest)),
{
    let text = string_literal_text(s) + rest;
    lemma_escaped_text_reads_back(s, rest);
    assert(text[0] == '"');
    assert(text.drop_first() =~= escaped_text(s) + seq!['"'] + rest);
}

} // verus!

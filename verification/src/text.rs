//! Decimal numerals, and text made of lines.

use vstd::prelude::*;

verus! {

/// The character that stands for the decimal digit `d`.
pub open spec fn digit_char(d: nat) -> char
    recommends
        d < 10,
{
    seq!['0', '1', '2', '3', '4', '5', '6', '7', '8', '9'][d as int]
}

/// Whether `c` is a decimal digit.
pub open spec fn is_digit(c: char) -> bool {
    '0' as u32 <= c as u32 <= '9' as u32
}

/// Whether `s` is a number written in decimal digits.
pub open spec fn is_decimal(s: Seq<char>) -> bool {
    &&& s.len() > 0
    &&& forall|i: int| 0 <= i < s.len() ==> is_digit(s[i])
}

/// The decimal numeral of `n`: no sign, no leading zero, `0` for zero.
pub open spec fn decimal_text(n: nat) -> Seq<char>
    decreases n,
{
    if n < 10 {
        seq![digit_char(n)]
    } else {
        decimal_text(n / 10).push(digit_char(n % 10))
    }
}

/// A decimal numeral is a number written in decimal digits.
pub proof fn lemma_decimal_text_is_decimal(n: nat)
    ensures
        is_decimal(decimal_text(n)),
    decreases n,
{
    if n >= 10 {
        lemma_decimal_text_is_decimal(n / 10);
    }
}

/// The number that a decimal digit stands for.
pub open spec fn digit_value(c: char) -> nat
    recommends
        is_digit(c),
{
    (c as u32 - '0' as u32) as nat
}

/// The number that a string of decimal digits stands for.
pub open spec fn numeral_value(s: Seq<char>) -> nat
    decreases s.len(),
{
    if s.len() == 0 {
        0
    } else {
        numeral_value(s.drop_last()) * 10 + digit_value(s.last())
    }
}

/// A decimal numeral stands for its number, and only the numeral of zero
/// starts with a zero.
pub proof fn lemma_decimal_text_reads_back(n: nat)
    ensures
        numeral_value(decimal_text(n)) == n,
        n > 0 ==> decimal_text(n)[0] != '0',
        n == 0 ==> decimal_text(n) == seq!['0'],
    decreases n,
{
    if n < 10 {
        let s = seq![digit_char(n)];
        assert(s.drop_last() =~= Seq::<char>::empty());
        assert(numeral_value(s.drop_last()) == 0);
        assert(digit_value(digit_char(n)) == n);
    } else {
        lemma_decimal_text_reads_back(n / 10);
        let s = decimal_text(n);
        assert(s.drop_last() =~= decimal_text(n / 10));
        assert(s.last() == digit_char(n % 10));
        assert(digit_value(digit_char(n % 10)) == n % 10);
        assert(s[0] == decimal_text(n / 10)[0]);
    }
}

/// The one-character string of a decimal digit.
fn digit_str(d: u64) -> (s: &'static str)
    requires
        d < 10,
    ensures
        s@ == seq![digit_char(d as nat)],
{
    proof {
        reveal_strlit("0");
        reveal_strlit("1");
        reveal_strlit("2");
        reveal_strlit("3");
        reveal_strlit("4");
        reveal_strlit("5");
        reveal_strlit("6");
        reveal_strlit("7");
        reveal_strlit("8");
        reveal_strlit("9");
    }
    let s: &'static str = if d == 0 {
        "0"
    } else if d == 1 {
        "1"
    } else if d == 2 {
        "2"
    } else if d == 3 {
        "3"
    } else if d == 4 {
        "4"
    } else if d == 5 {
        "5"
    } else if d == 6 {
        "6"
    } else if d == 7 {
        "7"
    } else if d == 8 {
        "8"
    } else {
        "9"
    };
    assert(s@ =~= seq![digit_char(d as nat)]);
    s
}

/// Writes `n` in decimal.
pub fn decimal(n: u64) -> (text: String)
    ensures
        text@ == decimal_text(n as nat),
    decreases n,
{
    if n < 10 {
        String::from_str(digit_str(n))
    } else {
        let mut text: String = decimal(n / 10);
        text.append(digit_str(n % 10));
        assert(text@ =~= decimal_text(n as nat));
        text
    }
}

/// Whether two strings hold the same text.
pub fn same_text(a: &str, b: &str) -> (same: bool)
    ensures
        same == (a@ == b@),
{
    a.to_owned() == b.to_owned()
}

/// The lines written one after another, each closed by a line feed.
pub open spec fn joined_lines(lines: Seq<Seq<char>>) -> Seq<char>
    decreases lines.len(),
{
    if lines.len() == 0 {
        Seq::empty()
    } else {
        joined_lines(lines.drop_last()) + lines.last() + seq!['\n']
    }
}

/// Writes the lines one after another, each closed by a line feed.
pub fn join_lines(lines: &Vec<String>) -> (text: String)
    ensures
        text@ == joined_lines(lines.deep_view()),
{
    let ghost all = lines.deep_view();
    let mut text: String = String::new();
    let mut i: usize = 0;
    while i < lines.len()
        invariant
            i <= lines.len(),
            all == lines.deep_view(),
            text@ == joined_lines(all.take(i as int)),
        decreases lines.len() - i,
    {
        proof {
            reveal_strlit("\n");
            assert(all.take(i + 1).drop_last() =~= all.take(i as int));
            assert(all.take(i + 1).last() == lines@[i as int]@);
            assert("\n"@ =~= seq!['\n']);
        }
        text.append(lines[i].as_str());
        text.append("\n");
        i += 1;
    }
    proof {
        assert(all.take(i as int) =~= all);
    }
    text
}

/// The number of characters of `text` before its first line feed, or before
/// its end where it has none.
pub open spec fn first_line_len(text: Seq<char>) -> nat
    decreases text.len(),
{
    if text.len() == 0 || text[0] == '\n' {
        0
    } else {
        1 + first_line_len(text.drop_first())
    }
}

/// The lines of `text`: every stretch that a line feed closes, without the
/// feed. What follows the last line feed belongs to no line.
pub open spec fn lines_of(text: Seq<char>) -> Seq<Seq<char>>
    decreases text.len(),
{
    let n = first_line_len(text);
    if n >= text.len() {
        Seq::empty()
    } else {
        seq![text.take(n as int)] + lines_of(text.skip(n as int + 1))
    }
}

/// The first line of a text that starts with a line and its line feed is
/// that line.
proof fn lemma_first_line(line: Seq<char>, rest: Seq<char>)
    requires
        !line.contains('\n'),
    ensures
        first_line_len(line + seq!['\n'] + rest) == line.len(),
        lines_of(line + seq!['\n'] + rest) == seq![line] + lines_of(rest),
    decreases line.len(),
{
    let text = line + seq!['\n'] + rest;
    if line.len() > 0 {
        assert(line[0] != '\n');
        assert forall|i: int| 0 <= i < line.drop_first().len() implies line.drop_first()[i]
            != '\n' by {
            assert(line[i + 1] != '\n');
        }
        lemma_first_line(line.drop_first(), rest);
        assert(text.drop_first() =~= line.drop_first() + seq!['\n'] + rest);
    }
    assert(first_line_len(text) == line.len());
    assert(text.take(line.len() as int) =~= line);
    assert(text.skip(line.len() as int + 1) =~= rest);
}

/// Joining starts with the first line and its line feed.
proof fn lemma_joined_lines_first(first: Seq<char>, rest: Seq<Seq<char>>)
    ensures
        joined_lines(seq![first] + rest) == first + seq!['\n'] + joined_lines(rest),
    decreases rest.len(),
{
    let all = seq![first] + rest;
    if rest.len() == 0 {
        assert(all.drop_last() =~= rest);
        assert(all.last() == first);
        assert(joined_lines(rest) =~= Seq::<char>::empty());
        assert(joined_lines(all) =~= first + seq!['\n'] + joined_lines(rest));
    } else {
        lemma_joined_lines_first(first, rest.drop_last());
        assert(all.drop_last() =~= seq![first] + rest.drop_last());
        assert(all.last() == rest.last());
        assert(joined_lines(all) =~= first + seq!['\n'] + joined_lines(rest));
    }
}

/// Splitting undoes joining: the lines of a text that was joined from lines
/// without a line feed in them are those lines.
pub proof fn lemma_lines_of_joined_lines(lines: Seq<Seq<char>>)
    requires
        forall|i: int| 0 <= i < lines.len() ==> !(#[trigger] lines[i]).contains('\n'),
    ensures
        lines_of(joined_lines(lines)) == lines,
    decreases lines.len(),
{
    if lines.len() == 0 {
        assert(lines_of(joined_lines(lines)) =~= lines);
    } else {
        let rest = lines.drop_first();
        assert(lines =~= seq![lines[0]] + rest);
        assert forall|i: int| 0 <= i < rest.len() implies !(#[trigger] rest[i]).contains('\n') by {
            assert(rest[i] == lines[i + 1]);
        }
        lemma_lines_of_joined_lines(rest);
        lemma_joined_lines_first(lines[0], rest);
        lemma_first_line(lines[0], joined_lines(rest));
    }
}

/// The line made of a label and a value, where there is a value; no line
/// where there is none.
pub open spec fn optional_line(label: Seq<char>, value: Option<Seq<char>>) -> Seq<Seq<char>> {
    match value {
        Some(text) => seq![label + text],
        None => Seq::empty(),
    }
}

/// Adds to `lines` the line made of `label` and `value`, where there is a
/// value.
pub fn push_optional_line(lines: &mut Vec<String>, label: &str, value: &Option<String>)
    ensures
        final(lines).deep_view() == old(lines).deep_view() + optional_line(
            label@,
            value.deep_view(),
        ),
{
    match value {
        Some(text) => {
            let line: String = String::from_str(label).concat(text.as_str());
            lines.push(line);
        },
        None => {},
    }
    assert(lines.deep_view() =~= old(lines).deep_view() + optional_line(label@, value.deep_view()));
}

} // verus!

//! The text exposition format for metrics: how its lines are written, and
//! which texts are well formed.

use vstd::prelude::*;
use crate::text::{is_decimal, is_digit, joined_lines, lemma_lines_of_joined_lines, lines_of};

verus! {

/// The line that documents the metric `name`.
pub open spec fn help_line(name: Seq<char>, help: Seq<char>) -> Seq<char> {
    "# HELP "@ + name + " "@ + help
}

/// The line that gives the kind of the metric `name`.
pub open spec fn type_line(name: Seq<char>, kind: Seq<char>) -> Seq<char> {
    "# TYPE "@ + name + " "@ + kind
}

/// How one character of a label value is written: a backslash in front of a
/// backslash and of a double quote, a backslash and the letter `n` for a line
/// feed, and every other character as it is.
pub open spec fn escaped_char(c: char) -> Seq<char> {
    if c == '\\' {
        seq!['\\', '\\']
    } else if c == '"' {
        seq!['\\', '"']
    } else if c == '\n' {
        seq!['\\', 'n']
    } else {
        seq![c]
    }
}

/// How a label value is written between its quotes: character by character.
pub open spec fn escaped_label_value(value: Seq<char>) -> Seq<char>
    decreases value.len(),
{
    if value.len() == 0 {
        Seq::empty()
    } else {
        escaped_label_value(value.drop_last()) + escaped_char(value.last())
    }
}

/// One label: the name, and the escaped value between double quotes.
pub open spec fn label_text(label: (Seq<char>, Seq<char>)) -> Seq<char> {
    label.0 + "=\""@ + escaped_label_value(label.1) + "\""@
}

/// The labels, with commas between them.
pub open spec fn label_list(labels: Seq<(Seq<char>, Seq<char>)>) -> Seq<char>
    decreases labels.len(),
{
    if labels.len() == 0 {
        Seq::empty()
    } else if labels.len() == 1 {
        label_text(labels[0])
    } else {
        label_list(labels.drop_last()) + ","@ + label_text(labels.last())
    }
}

/// The labels of a sample between braces, or nothing where it has none.
pub open spec fn label_block(labels: Seq<(Seq<char>, Seq<char>)>) -> Seq<char> {
    if labels.len() == 0 {
        Seq::empty()
    } else {
        "{"@ + label_list(labels) + "}"@
    }
}

/// The line of one sample: the metric, its labels, a space and the value.
pub open spec fn sample_line(
    name: Seq<char>,
    labels: Seq<(Seq<char>, Seq<char>)>,
    value: Seq<char>,
) -> Seq<char> {
    name + label_block(labels) + " "@ + value
}

/// Whether `c` is a letter of the basic Latin alphabet or an underscore.
pub open spec fn is_letter(c: char) -> bool {
    ||| 'a' as u32 <= c as u32 <= 'z' as u32
    ||| 'A' as u32 <= c as u32 <= 'Z' as u32
    ||| c == '_'
}

/// Whether `s` can name a metric: letters, digits, underscores and colons,
/// and no digit in front.
pub open spec fn is_metric_name(s: Seq<char>) -> bool {
    &&& s.len() > 0
    &&& !is_digit(s[0])
    &&& forall|i: int| 0 <= i < s.len() ==> is_letter(s[i]) || is_digit(s[i]) || s[i] == ':'
}

/// Whether `s` can name a label: letters, digits and underscores, and no
/// digit in front.
pub open spec fn is_label_name(s: Seq<char>) -> bool {
    &&& s.len() > 0
    &&& !is_digit(s[0])
    &&& forall|i: int| 0 <= i < s.len() ==> is_letter(s[i]) || is_digit(s[i])
}

/// Whether `s` can stand between the quotes of a label: a backslash
/// comes with a backslash, a double quote or the letter `n` behind it, and a
/// double quote occurs only behind a backslash, a line feed not at all.
pub open spec fn is_label_value(s: Seq<char>) -> bool
    decreases s.len(),
{
    if s.len() == 0 {
        true
    } else if s[0] == '\\' {
        &&& s.len() >= 2
        &&& (s[1] == '\\' || s[1] == '"' || s[1] == 'n')
        &&& is_label_value(s.skip(2))
    } else {
        &&& s[0] != '"'
        &&& s[0] != '\n'
        &&& is_label_value(s.drop_first())
    }
}

/// Whether `s` names a kind of metric that has one line for each sample.
pub open spec fn is_metric_kind(s: Seq<char>) -> bool {
    s == "counter"@ || s == "gauge"@ || s == "untyped"@
}

/// One sample of a metric: its labels and its value.
pub struct Sample {
    pub labels: Seq<(Seq<char>, Seq<char>)>,
    pub value: Seq<char>,
}

/// One metric: its name, what documents it, its kind and its samples.
pub struct Family {
    pub name: Seq<char>,
    pub help: Seq<char>,
    pub kind: Seq<char>,
    pub samples: Seq<Sample>,
}

/// The lines of one metric: the help, the kind, then a line for each sample.
pub open spec fn family_lines(family: Family) -> Seq<Seq<char>> {
    seq![help_line(family.name, family.help), type_line(family.name, family.kind)] + Seq::new(
        family.samples.len(),
        |i: int| sample_line(family.name, family.samples[i].labels, family.samples[i].value),
    )
}

/// The lines of some metrics, one metric after the other.
pub open spec fn families_lines(families: Seq<Family>) -> Seq<Seq<char>>
    decreases families.len(),
{
    if families.len() == 0 {
        Seq::empty()
    } else {
        families_lines(families.drop_last()) + family_lines(families.last())
    }
}

/// The exposition of some metrics.
pub open spec fn families_text(families: Seq<Family>) -> Seq<char> {
    joined_lines(families_lines(families))
}

/// Whether a sample can be written: label names that are names and differ
/// from each other, and a decimal value. A label value can be any text, since
/// it is escaped.
pub open spec fn is_sample(sample: Sample) -> bool {
    &&& forall|i: int|
        0 <= i < sample.labels.len() ==> is_label_name(#[trigger] sample.labels[i].0)
    &&& forall|i: int, j: int|
        0 <= i < j < sample.labels.len() ==> sample.labels[i].0 != sample.labels[j].0
    &&& is_decimal(sample.value)
}

/// Whether a metric can be written.
pub open spec fn is_family(family: Family) -> bool {
    &&& is_metric_name(family.name)
    &&& !family.help.contains('\n')
    &&& is_metric_kind(family.kind)
    &&& forall|i: int| 0 <= i < family.samples.len() ==> is_sample(#[trigger] family.samples[i])
}

/// Whether some metrics can be written one after the other:
/// each of them can, and no two have the same name.
pub open spec fn are_families(families: Seq<Family>) -> bool {
    &&& forall|i: int| 0 <= i < families.len() ==> is_family(#[trigger] families[i])
    &&& forall|i: int, j: int|
        0 <= i < j < families.len() ==> families[i].name != families[j].name
}

/// Whether `text` is a well-formed exposition: the lines of some metrics that
/// can be written. This is a part of the format: metrics of three
/// kinds, values without fraction or sign, no time stamps and no comments.
pub open spec fn is_exposition(text: Seq<char>) -> bool {
    exists|families: Seq<Family>| are_families(families) && text == families_text(families)
}

/// Writes the line that documents the metric `name`.
pub fn write_help_line(name: &str, help: &str) -> (line: String)
    ensures
        line@ == help_line(name@, help@),
{
    let mut line: String = String::from_str("# HELP ");
    line.append(name);
    line.append(" ");
    line.append(help);
    line
}

/// Writes the line that gives the kind of the metric `name`.
pub fn write_type_line(name: &str, kind: &str) -> (line: String)
    ensures
        line@ == type_line(name@, kind@),
{
    let mut line: String = String::from_str("# TYPE ");
    line.append(name);
    line.append(" ");
    line.append(kind);
    line
}

/// Writes a label value as it stands between its quotes.
pub fn write_label_value(value: &str) -> (text: String)
    ensures
        text@ == escaped_label_value(value@),
        is_label_value(text@),
{
    let n: usize = value.unicode_len();
    let mut text: String = String::new();
    let mut i: usize = 0;
    while i < n
        invariant
            i <= n,
            n == value@.len(),
            text@ == escaped_label_value(value@.take(i as int)),
        decreases n - i,
    {
        proof {
            reveal_strlit("\\\\");
            reveal_strlit("\\\"");
            reveal_strlit("\\n");
            assert(value@.take(i + 1).drop_last() =~= value@.take(i as int));
            assert(value@.take(i + 1).last() == value@[i as int]);
            assert(value@.subrange(i as int, i + 1) =~= seq![value@[i as int]]);
        }
        let c: char = value.get_char(i);
        if c == '\\' {
            text.append("\\\\");
        } else if c == '"' {
            text.append("\\\"");
        } else if c == '\n' {
            text.append("\\n");
        } else {
            text.append(value.substring_char(i, i + 1));
        }
        i += 1;
        assert(text@ =~= escaped_label_value(value@.take(i as int)));
    }
    proof {
        assert(value@.take(i as int) =~= value@);
        lemma_escaped_is_label_value(value@);
    }
    text
}

/// Writes the line of one sample of the metric `name`.
pub fn write_sample_line(name: &str, labels: &Vec<(String, String)>, value: &str) -> (line: String)
    ensures
        line@ == sample_line(name@, labels.deep_view(), value@),
{
    let ghost all = labels.deep_view();
    let mut line: String = String::from_str(name);
    if labels.len() > 0 {
        line.append("{");
        let mut i: usize = 0;
        while i < labels.len()
            invariant
                i <= labels.len(),
                all == labels.deep_view(),
                line@ == name@ + "{"@ + label_list(all.take(i as int)),
            decreases labels.len() - i,
        {
            proof {
                assert(all.take(i + 1).drop_last() =~= all.take(i as int));
                assert(all.take(i + 1).last() == all[i as int]);
                assert(all[i as int] == (labels@[i as int].0@, labels@[i as int].1@));
            }
            if i > 0 {
                line.append(",");
            }
            line.append(labels[i].0.as_str());
            line.append("=\"");
            line.append(write_label_value(labels[i].1.as_str()).as_str());
            line.append("\"");
            i += 1;
            assert(line@ =~= name@ + "{"@ + label_list(all.take(i as int)));
        }
        line.append("}");
        proof {
            assert(all.take(i as int) =~= all);
        }
    }
    line.append(" ");
    line.append(value);
    assert(line@ =~= sample_line(name@, all, value@));
    line
}

/// Two texts without a line feed make one without a line feed.
proof fn lemma_one_line_concat(a: Seq<char>, b: Seq<char>)
    requires
        !a.contains('\n'),
        !b.contains('\n'),
    ensures
        !(a + b).contains('\n'),
{
    assert forall|i: int| 0 <= i < (a + b).len() implies (a + b)[i] != '\n' by {
        if i < a.len() {
            assert(a[i] != '\n');
        } else {
            assert(b[i - a.len()] != '\n');
        }
    }
}

/// What can stand between the quotes of a label twice over can stand there
/// in one piece.
proof fn lemma_label_value_concat(a: Seq<char>, b: Seq<char>)
    requires
        is_label_value(a),
        is_label_value(b),
    ensures
        is_label_value(a + b),
    decreases a.len(),
{
    if a.len() == 0 {
        assert(a + b =~= b);
    } else if a[0] == '\\' {
        lemma_label_value_concat(a.skip(2), b);
        assert((a + b).skip(2) =~= a.skip(2) + b);
    } else {
        lemma_label_value_concat(a.drop_first(), b);
        assert((a + b).drop_first() =~= a.drop_first() + b);
    }
}

/// An escaped label value can stand between the quotes of a label, whatever
/// the value holds.
pub proof fn lemma_escaped_is_label_value(value: Seq<char>)
    ensures
        is_label_value(escaped_label_value(value)),
    decreases value.len(),
{
    if value.len() > 0 {
        lemma_escaped_is_label_value(value.drop_last());
        let last = escaped_char(value.last());
        assert(is_label_value(last)) by {
            if last.len() == 2 {
                assert(last.skip(2) =~= Seq::<char>::empty());
                assert(is_label_value(last.skip(2)));
            } else {
                assert(last.drop_first() =~= Seq::<char>::empty());
                assert(is_label_value(last.drop_first()));
            }
        }
        lemma_label_value_concat(escaped_label_value(value.drop_last()), last);
    }
}

/// A label value holds no line feed.
proof fn lemma_label_value_is_one_line(s: Seq<char>)
    requires
        is_label_value(s),
    ensures
        !s.contains('\n'),
    decreases s.len(),
{
    if s.len() > 0 {
        if s[0] == '\\' {
            lemma_label_value_is_one_line(s.skip(2));
            assert forall|i: int| 0 <= i < s.len() implies s[i] != '\n' by {
                if i >= 2 {
                    assert(s.skip(2)[i - 2] != '\n');
                }
            }
        } else {
            lemma_label_value_is_one_line(s.drop_first());
            assert forall|i: int| 0 <= i < s.len() implies s[i] != '\n' by {
                if i >= 1 {
                    assert(s.drop_first()[i - 1] != '\n');
                }
            }
        }
    }
}

/// A label holds no line feed.
proof fn lemma_label_is_one_line(label: (Seq<char>, Seq<char>))
    requires
        is_label_name(label.0),
    ensures
        !label_text(label).contains('\n'),
{
    reveal_strlit("=\"");
    reveal_strlit("\"");
    let value = escaped_label_value(label.1);
    lemma_escaped_is_label_value(label.1);
    lemma_label_value_is_one_line(value);
    lemma_one_line_concat(label.0, "=\""@);
    lemma_one_line_concat(label.0 + "=\""@, value);
    lemma_one_line_concat(label.0 + "=\""@ + value, "\""@);
}

/// A list of labels holds no line feed.
proof fn lemma_label_list_is_one_line(labels: Seq<(Seq<char>, Seq<char>)>)
    requires
        forall|i: int| 0 <= i < labels.len() ==> is_label_name(#[trigger] labels[i].0),
    ensures
        !label_list(labels).contains('\n'),
    decreases labels.len(),
{
    if labels.len() == 1 {
        lemma_label_is_one_line(labels[0]);
    } else if labels.len() > 1 {
        reveal_strlit(",");
        let front = labels.drop_last();
        assert forall|i: int| 0 <= i < front.len() implies is_label_name(
            #[trigger] front[i].0,
        ) by {
            assert(front[i] == labels[i]);
        }
        lemma_label_list_is_one_line(front);
        lemma_label_is_one_line(labels.last());
        lemma_one_line_concat(label_list(front), ","@);
        lemma_one_line_concat(label_list(front) + ","@, label_text(labels.last()));
    }
}

/// The line of a sample holds no line feed.
proof fn lemma_sample_line_is_one_line(name: Seq<char>, sample: Sample)
    requires
        is_metric_name(name),
        is_sample(sample),
    ensures
        !sample_line(name, sample.labels, sample.value).contains('\n'),
{
    reveal_strlit("{");
    reveal_strlit("}");
    reveal_strlit(" ");
    lemma_label_list_is_one_line(sample.labels);
    if sample.labels.len() > 0 {
        lemma_one_line_concat("{"@, label_list(sample.labels));
        lemma_one_line_concat("{"@ + label_list(sample.labels), "}"@);
    }
    lemma_one_line_concat(name, label_block(sample.labels));
    lemma_one_line_concat(name + label_block(sample.labels), " "@);
    lemma_one_line_concat(name + label_block(sample.labels) + " "@, sample.value);
}

/// No line of a metric holds a line feed.
proof fn lemma_family_lines_are_one_line(family: Family)
    requires
        is_family(family),
    ensures
        forall|i: int|
            0 <= i < family_lines(family).len() ==> !(#[trigger] family_lines(family)[i]).contains(
                '\n',
            ),
{
    reveal_strlit("# HELP ");
    reveal_strlit("# TYPE ");
    reveal_strlit(" ");
    reveal_strlit("counter");
    reveal_strlit("gauge");
    reveal_strlit("untyped");
    lemma_one_line_concat("# HELP "@, family.name);
    lemma_one_line_concat("# HELP "@ + family.name, " "@);
    lemma_one_line_concat("# HELP "@ + family.name + " "@, family.help);
    lemma_one_line_concat("# TYPE "@, family.name);
    lemma_one_line_concat("# TYPE "@ + family.name, " "@);
    lemma_one_line_concat("# TYPE "@ + family.name + " "@, family.kind);
    assert forall|i: int| 0 <= i < family_lines(family).len() implies !(#[trigger] family_lines(
        family,
    )[i]).contains('\n') by {
        if i >= 2 {
            lemma_sample_line_is_one_line(family.name, family.samples[i - 2]);
        }
    }
}

/// No line of metrics that can be written holds a line feed.
proof fn lemma_families_lines_are_one_line(families: Seq<Family>)
    requires
        are_families(families),
    ensures
        forall|i: int|
            0 <= i < families_lines(families).len() ==> !(#[trigger] families_lines(
                families,
            )[i]).contains('\n'),
    decreases families.len(),
{
    if families.len() > 0 {
        let front = families.drop_last();
        assert(are_families(front)) by {
            assert forall|i: int| 0 <= i < front.len() implies is_family(#[trigger] front[i]) by {
                assert(front[i] == families[i]);
            }
            assert forall|i: int, j: int| 0 <= i < j < front.len() implies front[i].name
                != front[j].name by {
                assert(front[i] == families[i] && front[j] == families[j]);
            }
        }
        lemma_families_lines_are_one_line(front);
        lemma_family_lines_are_one_line(families.last());
        let before = families_lines(front);
        let all = families_lines(families);
        assert forall|i: int| 0 <= i < all.len() implies !(#[trigger] all[i]).contains('\n') by {
            if i < before.len() {
                assert(all[i] == before[i]);
            } else {
                assert(all[i] == family_lines(families.last())[i - before.len()]);
            }
        }
    }
}

/// A well-formed exposition falls into the lines it was written from: the
/// lines of the exposition of metrics that can be written are the lines of
/// those metrics, one for each help, each kind and each sample.
pub proof fn lemma_exposition_lines(families: Seq<Family>)
    requires
        are_families(families),
    ensures
        is_exposition(families_text(families)),
        lines_of(families_text(families)) == families_lines(families),
{
    lemma_families_lines_are_one_line(families);
    lemma_lines_of_joined_lines(families_lines(families));
}

} // verus!

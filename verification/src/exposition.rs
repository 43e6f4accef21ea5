//! The text exposition format: a writer that emits each metric's `HELP` and `TYPE` once, and
//! the rendering of a [`MetricsReport`](crate::metrics::MetricsReport).

use vstd::prelude::*;

use crate::number;
use crate::number::SampleValue;
use crate::text;

verus! {

/// One piece of an exposition.
pub enum Line {
    /// The `HELP` and `TYPE` of a metric.
    Header { name: Seq<char>, kind: Seq<char>, help: Seq<char> },
    /// One sample, its labels in the order given.
    Sample { name: Seq<char>, labels: Seq<(Seq<char>, Seq<char>)>, value: SampleValue },
}

/// How a character of a label's value is written: backslash, double quote and newline are
/// escaped.
pub open spec fn escaped_char(c: char) -> Seq<char> {
    if c == '\\' {
        seq!['\\', '\\']
    } else if c == '"' {
        seq!['\\', '"']
    } else if c == '\n' {
        seq!['\\', 'n']
    } else {
        seq![c]
    }
}

/// A label's value, escaped.
pub open spec fn escaped(value: Seq<char>) -> Seq<char>
    decreases value.len(),
{
    if value.len() == 0 {
        Seq::empty()
    } else {
        escaped(value.drop_last()) + escaped_char(value.last())
    }
}

/// Labels as they are written between the braces.
pub open spec fn labels_text(labels: Seq<(Seq<char>, Seq<char>)>) -> Seq<char>
    decreases labels.len(),
{
    if labels.len() == 0 {
        Seq::empty()
    } else {
        let rest = labels_text(labels.drop_last());
        let comma = if labels.len() > 1 {
            rest.push(',')
        } else {
            rest
        };
        (comma + labels.last().0 + "=\""@ + escaped(labels.last().1)).push('"')
    }
}

/// The text of one piece.
pub open spec fn line_text(line: Line) -> Seq<char> {
    match line {
        Line::Header { name, kind, help } => (("# HELP "@ + name).push(' ') + help).push('\n')
            + (("# TYPE "@ + name).push(' ') + kind).push('\n'),
        Line::Sample { name, labels, value } => {
            let head = if labels.len() == 0 {
                name
            } else {
                (name.push('{') + labels_text(labels)).push('}')
            };
            (head.push(' ') + number::value_text(value)).push('\n')
        },
    }
}

/// The text of an exposition: its pieces, one after another.
pub open spec fn exposed(lines: Seq<Line>) -> Seq<char>
    decreases lines.len(),
{
    if lines.len() == 0 {
        Seq::empty()
    } else {
        exposed(lines.drop_last()) + line_text(lines.last())
    }
}

/// The labels that a list of pairs of texts stands for.
pub open spec fn label_texts(labels: Seq<(&str, &str)>) -> Seq<(Seq<char>, Seq<char>)> {
    labels.map_values(|l: (&str, &str)| (l.0@, l.1@))
}

/// Whether a metric's `HELP` and `TYPE` stand among the pieces.
pub open spec fn introduced(lines: Seq<Line>, name: Seq<char>) -> bool {
    exists|i: int|
        0 <= i < lines.len() && #[trigger] lines[i] is Header && lines[i]->Header_name == name
}

/// No metric is introduced twice.
pub open spec fn introduces_once(lines: Seq<Line>) -> bool {
    forall|i: int, j: int|
        0 <= i < j < lines.len() && #[trigger] lines[i] is Header && #[trigger] lines[j] is Header
            ==> lines[i]->Header_name != lines[j]->Header_name
}

/// A writer that emits each metric's `HELP` and `TYPE` exactly once.
pub struct Exposition {
    out: String,
    names: Vec<&'static str>,
    lines: Ghost<Seq<Line>>,
}

impl Exposition {
    /// What has been written.
    pub closed spec fn lines(&self) -> Seq<Line> {
        self.lines@
    }

    /// The text is that of the pieces written, and the names are those introduced.
    pub closed spec fn wf(&self) -> bool {
        &&& self.out@ == exposed(self.lines@)
        &&& introduces_once(self.lines@)
        &&& forall|j: int|
            0 <= j < self.names@.len() ==> introduced(self.lines@, (#[trigger] self.names@[j])@)
        &&& forall|i: int|
            0 <= i < self.lines@.len() && #[trigger] self.lines@[i] is Header ==> exists|j: int|
                0 <= j < self.names@.len() && (#[trigger] self.names@[j])@
                    == self.lines@[i]->Header_name
    }

    /// A writer that has written nothing.
    pub fn new() -> (e: Self)
        ensures
            e.wf(),
            e.lines() == Seq::<Line>::empty(),
    {
        let e = Exposition { out: String::new(), names: Vec::new(), lines: Ghost(Seq::empty()) };
        assert(e.out@ =~= exposed(e.lines@));
        e
    }

    fn is_introduced(&self, name: &str) -> (r: bool)
        requires
            self.wf(),
        ensures
            r == introduced(self.lines@, name@),
    {
        let mut i: usize = 0;
        while i < self.names.len()
            invariant
                i <= self.names@.len(),
                self.wf(),
                forall|j: int| 0 <= j < i ==> (#[trigger] self.names@[j])@ != name@,
            decreases self.names@.len() - i,
        {
            if text::same_text(self.names[i], name) {
                assert(introduced(self.lines@, self.names@[i as int]@));
                return true;
            }
            i = i + 1;
        }
        false
    }

    /// Name the metric that the next samples belong to. Its `HELP` and `TYPE` are written unless
    /// they stand in the text already.
    pub fn metric(&mut self, name: &'static str, kind: &str, help: &str)
        requires
            old(self).wf(),
        ensures
            final(self).wf(),
            final(self).lines() == (if introduced(old(self).lines(), name@) {
                old(self).lines()
            } else {
                old(self).lines().push(
                    (Line::Header { name: name@, kind: kind@, help: help@ }),
                )
            }),
    {
        if self.is_introduced(name) {
            return ;
        }
        text::push_text(&mut self.out, "# HELP ");
        text::push_text(&mut self.out, name);
        self.out.push(' ');
        text::push_text(&mut self.out, help);
        self.out.push('\n');
        text::push_text(&mut self.out, "# TYPE ");
        text::push_text(&mut self.out, name);
        self.out.push(' ');
        text::push_text(&mut self.out, kind);
        self.out.push('\n');
        let ghost line = Line::Header { name: name@, kind: kind@, help: help@ };
        let ghost before = self.lines@;
        let ghost names = self.names@;
        self.names.push(name);
        self.lines = Ghost(before.push(line));
        proof {
            let lines = before.push(line);
            assert(lines.drop_last() =~= before);
            assert(self.out@ =~= old(self).out@ + line_text(line));
            assert(lines[before.len() as int] is Header);
            assert forall|j: int| 0 <= j < self.names@.len() implies introduced(
                lines,
                (#[trigger] self.names@[j])@,
            ) by {
                if j < names.len() {
                    assert(self.names@[j] == names[j]);
                    still_introduced(before, line, names[j]@);
                }
            }
            assert forall|i: int| 0 <= i < lines.len() && #[trigger] lines[i] is Header implies
                exists|j: int|
                0 <= j < self.names@.len() && (#[trigger] self.names@[j])@
                    == lines[i]->Header_name by {
                if i < before.len() {
                    assert(lines[i] == before[i]);
                    let j = choose|j: int|
                        0 <= j < names.len() && (#[trigger] names[j])@
                            == before[i]->Header_name;
                    assert(self.names@[j] == names[j]);
                } else {
                    assert(self.names@[names.len() as int]@ == name@);
                }
            }
        }
    }

    /// Write one sample. Labels are written in the order given.
    pub fn sample(&mut self, name: &str, labels: &Vec<(&str, &str)>, value: SampleValue)
        requires
            old(self).wf(),
        ensures
            final(self).wf(),
            final(self).lines() == old(self).lines().push(
                (Line::Sample { name: name@, labels: label_texts(labels@), value }),
            ),
    {
        let ghost texts = label_texts(labels@);
        text::push_text(&mut self.out, name);
        if labels.len() > 0 {
            self.out.push('{');
            let ghost head = self.out@;
            let mut i: usize = 0;
            assert(self.out@ =~= head + labels_text(texts.take(0)));
            while i < labels.len()
                invariant
                    i <= labels@.len(),
                    texts == label_texts(labels@),
                    texts.len() == labels@.len(),
                    self.out@ == head + labels_text(texts.take(i as int)),
                    self.names == old(self).names,
                    self.lines == old(self).lines,
                decreases labels@.len() - i,
            {
                let ghost before = self.out@;
                if i > 0 {
                    self.out.push(',');
                }
                text::push_text(&mut self.out, labels[i].0);
                text::push_text(&mut self.out, "=\"");
                escape_label_value(labels[i].1, &mut self.out);
                self.out.push('"');
                assert(texts.take(i + 1).drop_last() =~= texts.take(i as int));
                assert(self.out@ =~= head + labels_text(texts.take(i + 1)));
                i = i + 1;
            }
            assert(texts.take(labels@.len() as int) =~= texts);
            self.out.push('}');
        }
        self.out.push(' ');
        number::push_value(&mut self.out, value);
        self.out.push('\n');
        let ghost line = Line::Sample { name: name@, labels: texts, value };
        self.lines = Ghost(self.lines@.push(line));
        proof {
            assert(old(self).lines@.push(line).drop_last() =~= old(self).lines@);
            assert(self.out@ =~= old(self).out@ + line_text(line));
            assert forall|j: int| 0 <= j < self.names@.len() implies introduced(
                self.lines@,
                (#[trigger] self.names@[j])@,
            ) by {
                still_introduced(old(self).lines@, line, self.names@[j]@);
            }
        }
    }

    /// The text written.
    pub fn finish(self) -> (r: String)
        requires
            self.wf(),
        ensures
            r@ == exposed(self.lines()),
            introduces_once(self.lines()),
    {
        self.out
    }
}

/// Append a label's value, escaped.
pub fn escape_label_value(value: &str, out: &mut String)
    ensures
        final(out)@ == old(out)@ + escaped(value@),
{
    let n: usize = value.unicode_len();
    let mut i: usize = 0;
    assert(out@ =~= old(out)@ + escaped(value@.take(0)));
    while i < n
        invariant
            n == value@.len(),
            i <= n,
            out@ == old(out)@ + escaped(value@.take(i as int)),
        decreases n - i,
    {
        let c: char = value.get_char(i);
        let ghost before = out@;
        if c == '\\' {
            out.push('\\');
            out.push('\\');
        } else if c == '"' {
            out.push('\\');
            out.push('"');
        } else if c == '\n' {
            out.push('\\');
            out.push('n');
        } else {
            out.push(c);
        }
        assert(out@ =~= before + escaped_char(c));
        assert(value@.take(i + 1).drop_last() =~= value@.take(i as int));
        assert(out@ =~= old(out)@ + escaped(value@.take(i + 1)));
        i = i + 1;
    }
    assert(value@.take(n as int) =~= value@);
}

proof fn still_introduced(lines: Seq<Line>, line: Line, name: Seq<char>)
    requires
        introduced(lines, name),
    ensures
        introduced(lines.push(line), name),
{
    let i = choose|i: int|
        0 <= i < lines.len() && #[trigger] lines[i] is Header && lines[i]->Header_name == name;
    assert(lines.push(line)[i] == lines[i]);
}

/// What a reader of the format takes for a label's value, given the text behind the opening
/// quote: the value with its escapes undone and the text behind the closing quote, or `None`
/// where the line or the text ends first.
pub open spec fn read_value(text: Seq<char>) -> Option<(Seq<char>, Seq<char>)>
    decreases text.len(),
{
    if text.len() == 0 || text[0] == '\n' {
        None
    } else if text[0] == '"' {
        Some((Seq::empty(), text.skip(1)))
    } else if text[0] != '\\' {
        match read_value(text.skip(1)) {
            Some((value, rest)) => Some((seq![text[0]] + value, rest)),
            None => None,
        }
    } else if text.len() == 1 {
        None
    } else {
        let c = if text[1] == 'n' {
            '\n'
        } else {
            text[1]
        };
        match read_value(text.skip(2)) {
            Some((value, rest)) => Some((seq![c] + value, rest)),
            None => None,
        }
    }
}

/// A label's value that was escaped and quoted is read back as it was, and the reader goes on
/// right behind it: no value can end the line or the label it stands in.
pub proof fn a_label_value_reads_back(value: Seq<char>, rest: Seq<char>)
    ensures
        read_value(escaped(value).push('"') + rest) == Some((value, rest)),
{
    let tail = seq!['"'] + rest;
    assert(escaped(value).push('"') + rest =~= escaped(value) + tail);
    assert(tail.skip(1) =~= rest);
    undoing_the_escapes(value, tail);
    assert(value + Seq::<char>::empty() =~= value);
}

proof fn undoing_the_escapes(value: Seq<char>, tail: Seq<char>)
    requires
        read_value(tail) is Some,
    ensures
        read_value(escaped(value) + tail) == Some(
            (value + (read_value(tail)->0).0, (read_value(tail)->0).1),
        ),
    decreases value.len(),
{
    let (last, rest) = read_value(tail)->0;
    if value.len() == 0 {
        assert(escaped(value) + tail =~= tail);
        assert(value + last =~= last);
    } else {
        let c = value.last();
        let more = escaped_char(c) + tail;
        assert(more.skip(escaped_char(c).len() as int) =~= tail);
        assert(read_value(more) == Some((seq![c] + last, rest)));
        undoing_the_escapes(value.drop_last(), more);
        assert(escaped(value) + tail =~= escaped(value.drop_last()) + more);
        assert(value.drop_last() + (seq![c] + last) =~= value + last);
    }
}

/// Lines stand one behind the other, in the order in which they were written.
pub proof fn lines_stand_in_order(lines: Seq<Line>, line: Line)
    ensures
        exposed(Seq::empty()) == Seq::<char>::empty(),
        exposed(lines.push(line)) == exposed(lines) + line_text(line),
{
    assert(lines.push(line).drop_last() =~= lines);
}

/// A sample is a line of its own: the name, the labels in braces with their values escaped and in
/// quotes, a space, and the value. A metric is introduced by two lines, with its help and its type.
pub proof fn a_line_shows_name_labels_and_value(
    name: Seq<char>,
    kind: Seq<char>,
    help: Seq<char>,
    labels: Seq<(Seq<char>, Seq<char>)>,
    label: (Seq<char>, Seq<char>),
    value: SampleValue,
)
    ensures
        line_text(Line::Header { name, kind, help }) == "# HELP "@ + name + seq![' '] + help
            + seq!['\n'] + "# TYPE "@ + name + seq![' '] + kind + seq!['\n'],
        line_text(Line::Sample { name, labels: Seq::empty(), value }) == name + seq![' ']
            + number::value_text(value) + seq!['\n'],
        labels.len() > 0 ==> line_text(Line::Sample { name, labels, value }) == name + seq!['{']
            + labels_text(labels) + seq!['}', ' '] + number::value_text(value) + seq!['\n'],
        labels_text(seq![label]) == label.0 + seq!['=', '"'] + escaped(label.1) + seq!['"'],
        labels.len() > 0 ==> labels_text(labels.push(label)) == labels_text(labels) + seq![',']
            + label.0 + seq!['=', '"'] + escaped(label.1) + seq!['"'],
{
    reveal_strlit("=\"");
    assert("=\""@ =~= seq!['=', '"']);
    assert(labels.push(label).drop_last() =~= labels);
    assert(seq![label].drop_last() =~= Seq::empty());
    assert(labels_text(Seq::<(Seq<char>, Seq<char>)>::empty()) =~= Seq::<char>::empty());
    assert(labels_text(seq![label]) =~= label.0 + seq!['=', '"'] + escaped(label.1) + seq!['"']);
    assert(line_text(Line::Header { name, kind, help }) =~= "# HELP "@ + name + seq![' '] + help
        + seq!['\n'] + "# TYPE "@ + name + seq![' '] + kind + seq!['\n']);
}

} // verus!

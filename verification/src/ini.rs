//! The lines of an INI text, as the INI library reads and writes them.

use serde_ini::parse::{Item, Parser};
use serde_ini::write::{LineEnding, Writer};
use crate::text::{free_of, has_char, views};
use vstd::prelude::*;
use vstd::string::StrSliceExecFns;
use vstd::utf8::encode_utf8;

verus! {

/// One line of an INI text.
#[derive(Clone, Debug, PartialEq, Eq)]
pub enum Line {
    /// A line with nothing on it.
    Empty,
    /// `[name]`: what follows belongs to the section of that name.
    Section { name: String },
    /// `key=value`
    Value { key: String, value: String },
    /// A line that is there for its reader only.
    Comment { text: String },
}

/// The model of a [`Line`].
pub enum LineView {
    Empty,
    Section { name: Seq<char> },
    Value { key: Seq<char>, value: Seq<char> },
    Comment { text: Seq<char> },
}

impl View for Line {
    type V = LineView;

    open spec fn view(&self) -> LineView {
        match self {
            Line::Empty => LineView::Empty,
            Line::Section { name } => LineView::Section { name: name@ },
            Line::Value { key, value } => LineView::Value { key: key@, value: value@ },
            Line::Comment { text } => LineView::Comment { text: text@ },
        }
    }
}

/// The model of what reading one line gave: the line, or the message of the
/// error that stands in its place.
pub type ReadLine = Result<LineView, Seq<char>>;

/// The model of one line as it was read.
pub open spec fn read_view(line: Result<Line, String>) -> ReadLine {
    match line {
        Ok(line) => Ok(line@),
        Err(message) => Err(message@),
    }
}

/// The models of the lines as they were read, in order.
pub open spec fn read_views(lines: Seq<Result<Line, String>>) -> Seq<ReadLine> {
    Seq::new(lines.len(), |i: int| read_view(lines[i]))
}

/// The lines as they stand when each of them was read without an error.
pub open spec fn as_read(lines: Seq<LineView>) -> Seq<ReadLine> {
    Seq::new(lines.len(), |i: int| Ok(lines[i]))
}

/// The end of every written line.
pub open spec fn line_end() -> Seq<char> {
    seq!['\r', '\n']
}

/// A line as it is written.
pub open spec fn line_text(line: LineView) -> Seq<char> {
    match line {
        LineView::Empty => line_end(),
        LineView::Section { name } => seq!['['] + name + seq![']'] + line_end(),
        LineView::Value { key, value } => key + seq!['='] + value + line_end(),
        LineView::Comment { text } => seq![';'] + text + line_end(),
    }
}

/// The bytes of the lines as they are written, one line after the other.
pub open spec fn written(lines: Seq<LineView>) -> Seq<u8>
    decreases lines.len(),
{
    if lines.len() == 0 {
        Seq::empty()
    } else {
        written(lines.drop_last()) + encode_utf8(line_text(lines.last()))
    }
}

/// Whether a character is white space, as Unicode has it.
pub open spec fn white_space(c: char) -> bool {
    let code = c as u32;
    ||| 0x09 <= code <= 0x0D
    ||| code == 0x20
    ||| code == 0x85
    ||| code == 0xA0
    ||| code == 0x1680
    ||| 0x2000 <= code <= 0x200A
    ||| code == 0x2028
    ||| code == 0x2029
    ||| code == 0x202F
    ||| code == 0x205F
    ||| code == 0x3000
}

/// Whether a text neither begins nor ends with white space.
pub open spec fn bare(text: Seq<char>) -> bool {
    text.len() > 0 ==> !white_space(text.first()) && !white_space(text.last())
}

/// Whether a value is read back from its line as it was written: it holds no
/// line feed, and it neither begins nor ends with white space.
pub open spec fn plain_value(text: Seq<char>) -> bool {
    free_of(text, '\n') && bare(text)
}

/// Whether a key is read back from its line as it was written: it is a plain
/// value without `=`, and it does not begin like a section or a comment.
pub open spec fn plain_key(text: Seq<char>) -> bool {
    &&& plain_value(text)
    &&& free_of(text, '=')
    &&& text.len() > 0 ==> text.first() != '[' && text.first() != ';' && text.first() != '#'
}

/// Whether the name of a section is read back from its line as it was
/// written: it holds neither a line feed nor `]`.
pub open spec fn plain_section(name: Seq<char>) -> bool {
    free_of(name, '\n') && free_of(name, ']')
}

/// Whether a line is read back as it was written. A comment never is: the
/// parser keeps its mark as a part of the text.
pub open spec fn plain_line(line: LineView) -> bool {
    match line {
        LineView::Empty => true,
        LineView::Section { name } => plain_section(name),
        LineView::Value { key, value } => plain_key(key) && plain_value(value),
        LineView::Comment { .. } => false,
    }
}

/// Whether each of the lines is read back as it was written.
pub open spec fn plain_lines(lines: Seq<LineView>) -> bool {
    forall|i: int| 0 <= i < lines.len() ==> plain_line(#[trigger] lines[i])
}

/// What the INI library's parser makes of the bytes of a text, line by line.
pub uninterp spec fn parsed_lines(data: Seq<u8>) -> Seq<ReadLine>;

/// Runs `serde_ini::parse::Parser::from_read` over the bytes and collects all
/// that it yields: for each line of the text the item that the parser reads in
/// it, or the message of the error that it gives for that line. The contract
/// names that result, and says one thing of it: bytes that are the written
/// form of plain lines are read as those lines. The parser cuts the text at
/// the line feeds and drops the carriage return before each; it takes a line
/// in square brackets for a section with all that is between them, and any
/// other line that does not begin with `;` or `#` for a key and a value, cut
/// at the first `=` and each trimmed of white space.
#[verifier::external_body]
pub(crate) fn parse_lines(data: &[u8]) -> (lines: Vec<Result<Line, String>>)
    ensures
        read_views(lines@) == parsed_lines(data@),
        forall|plain: Seq<LineView>|
            plain_lines(plain) && #[trigger] written(plain) == data@ ==> read_views(lines@)
                == as_read(plain),
{
    let mut lines = Vec::new();
    for item in Parser::from_read(data) {
        lines.push(match item {
            Ok(Item::Empty) => Ok(Line::Empty),
            Ok(Item::Section { name }) => Ok(Line::Section { name }),
            Ok(Item::Value { key, value }) => Ok(Line::Value { key, value }),
            Ok(Item::Comment { text }) => Ok(Line::Comment { text }),
            Err(e) => Err(e.to_string()),
        });
    }
    lines
}

/// Writes one line with `serde_ini::write::Writer::write`, with the library's
/// default line ending, at the end of `out`. The writer only formats the line
/// into the buffer, which takes every byte, so it succeeds. The bytes added
/// are the line's text in UTF-8: a section between square brackets, a key and
/// its value with `=` between them, a comment after `;`, each followed by a
/// carriage return and a line feed.
#[verifier::external_body]
pub(crate) fn write_line(out: &mut Vec<u8>, line: &Line) -> (r: Result<(), std::io::Error>)
    ensures
        r is Ok,
        final(out)@ == old(out)@ + encode_utf8(line_text(line@)),
{
    let item = match line {
        Line::Empty => Item::Empty,
        Line::Section { name } => Item::Section { name: name.clone() },
        Line::Value { key, value } => Item::Value { key: key.clone(), value: value.clone() },
        Line::Comment { text } => Item::Comment { text: text.clone() },
    };
    Writer::new(out, LineEnding::default()).write(&item)
}

/// Reads the lines of a text from its bytes. Bytes that are the written form
/// of plain lines are read as those lines.
pub fn read_lines(data: &[u8]) -> (lines: Vec<Result<Line, String>>)
    ensures
        read_views(lines@) == parsed_lines(data@),
        forall|plain: Seq<LineView>|
            plain_lines(plain) && #[trigger] written(plain) == data@ ==> read_views(lines@)
                == as_read(plain),
{
    parse_lines(data)
}

/// Writes the lines at the end of `out`, one after the other.
pub fn write_lines(out: &mut Vec<u8>, lines: &Vec<Line>)
    ensures
        final(out)@ == old(out)@ + written(views(lines@)),
{
    let ghost wanted = views(lines@);
    let mut i: usize = 0;
    proof {
        assert(wanted.take(0) =~= Seq::empty());
        assert(out@ =~= old(out)@ + written(wanted.take(0)));
    }
    while i < lines.len()
        invariant
            i <= lines.len(),
            wanted == views(lines@),
            out@ == old(out)@ + written(wanted.take(i as int)),
        decreases lines.len() - i,
    {
        let _ = write_line(out, &lines[i]);
        proof {
            assert(wanted.take(i + 1).drop_last() =~= wanted.take(i as int));
            assert(wanted.take(i + 1).last() == lines@[i as int]@);
            assert(out@ =~= old(out)@ + written(wanted.take(i + 1)));
        }
        i = i + 1;
    }
    proof {
        assert(wanted.take(i as int) =~= wanted);
    }
}

/// Whether a character is white space, as Unicode has it.
pub fn is_white_space(c: char) -> (r: bool)
    ensures
        r == white_space(c),
{
    let code = c as u32;
    (0x09 <= code && code <= 0x0D) || code == 0x20 || code == 0x85 || code == 0xA0 || code
        == 0x1680 || (0x2000 <= code && code <= 0x200A) || code == 0x2028 || code == 0x2029
        || code == 0x202F || code == 0x205F || code == 0x3000
}

/// Whether a text neither begins nor ends with white space.
pub fn is_bare(text: &str) -> (r: bool)
    ensures
        r == bare(text@),
{
    let count = text.unicode_len();
    if count == 0 {
        true
    } else {
        !is_white_space(text.get_char(0)) && !is_white_space(text.get_char(count - 1))
    }
}

impl Line {
    /// Whether the line is read back as it was written.
    pub fn is_plain(&self) -> (r: bool)
        ensures
            r == plain_line(self@),
    {
        match self {
            Line::Empty => true,
            Line::Section { name } => !has_char(name.as_str(), '\n') && !has_char(
                name.as_str(),
                ']',
            ),
            Line::Value { key, value } => {
                let key_begins_well = if key.as_str().unicode_len() == 0 {
                    true
                } else {
                    let first = key.as_str().get_char(0);
                    first != '[' && first != ';' && first != '#'
                };
                !has_char(key.as_str(), '\n') && is_bare(key.as_str()) && !has_char(
                    key.as_str(),
                    '=',
                ) && key_begins_well && !has_char(value.as_str(), '\n') && is_bare(value.as_str())
            },
            Line::Comment { .. } => false,
        }
    }
}

} // verus!

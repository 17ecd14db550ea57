//! The source text: the characters of the input and the lines they fall into.
//!
//! Every offset and length counts characters.

use crate::text::{chars_of, string_of};
use vstd::prelude::*;

verus! {

/// The input, with the lines it is made of.
pub struct SourceText {
    chars: Vec<char>,
    lines: Vec<TextLine>,
}

/// One line of a source text: where it starts, how many characters it has
/// before its line break, and the second length it was made with.
pub struct TextLine {
    source: SourceText,
    start: usize,
    length: usize,
    length_with_line_breaks: usize,
}

/// A range of characters.
pub struct TextSpan {
    start: usize,
    length: usize,
    end: usize,
}

/// The view of a [`TextLine`]: the text it was cut from and its three numbers.
pub struct TextLineView {
    pub text: Seq<char>,
    pub start: usize,
    pub length: usize,
    pub length_with_line_breaks: usize,
}

/// The view of a [`SourceText`].
pub struct SourceTextView {
    pub text: Seq<char>,
    pub lines: Seq<TextLineView>,
}

/// The view of a [`TextSpan`].
pub struct TextSpanView {
    pub start: usize,
    pub length: usize,
    pub end: usize,
}

/// How many characters the line break at `position` takes: 2 for a carriage
/// return followed by a line feed, 1 for either of them alone, 0 where no
/// line break starts.
pub open spec fn line_break_width(text: Seq<char>, position: int) -> int
    recommends
        0 <= position < text.len(),
{
    if text[position] == '\r' && position + 1 < text.len() && text[position + 1] == '\n' {
        2
    } else if text[position] == '\r' || text[position] == '\n' {
        1
    } else {
        0
    }
}

/// The lines of `text` from the line that starts at `line_start`, of which
/// the characters before `position` hold no line break.
///
/// A line ends where a line break starts, and the next one begins behind that
/// break. The text's end closes the last line, which may be empty. A line's
/// second length is the width of the break that ended it.
pub open spec fn lines_from(text: Seq<char>, position: int, line_start: int) -> Seq<TextLineView>
    recommends
        0 <= line_start <= position <= text.len(),
    decreases text.len() - position,
{
    if position < 0 || position >= text.len() {
        seq![
            TextLineView {
                text,
                start: line_start as usize,
                length: (position - line_start) as usize,
                length_with_line_breaks: 0,
            },
        ]
    } else {
        let width = line_break_width(text, position);
        if width == 0 {
            lines_from(text, position + 1, line_start)
        } else {
            seq![
                TextLineView {
                    text,
                    start: line_start as usize,
                    length: (position - line_start) as usize,
                    length_with_line_breaks: width as usize,
                },
            ] + lines_from(text, position + width, position + width)
        }
    }
}

/// The lines of a whole text.
pub open spec fn lines_of(text: Seq<char>) -> Seq<TextLineView> {
    lines_from(text, 0, 0)
}

/// Whether a character is part of a line break.
pub open spec fn is_break(c: char) -> bool {
    c == '\r' || c == '\n'
}

/// Whether lines cut a text up without gap or overlap: the first starts at
/// `first_start`, each one holds no line break and is followed by the break
/// whose width it records, the next one starts behind that break, and the
/// last one runs to the text's end.
pub open spec fn lines_cut_up(text: Seq<char>, lines: Seq<TextLineView>, first_start: int) -> bool {
    &&& lines.len() > 0
    &&& lines[0].start == first_start
    &&& lines.last().start + lines.last().length == text.len()
    &&& lines.last().length_with_line_breaks == 0
    &&& forall|i: int|
        0 <= i < lines.len() ==> {
            let line = #[trigger] lines[i];
            &&& line.text == text
            &&& line.start + line.length <= text.len()
            &&& forall|j: int| line.start <= j < line.start + line.length ==> !is_break(text[j])
        }
    &&& forall|i: int|
        0 <= i < lines.len() - 1 ==> {
            let line = #[trigger] lines[i];
            let next = lines[i + 1];
            &&& line.length_with_line_breaks == line_break_width(text, line.start + line.length)
            &&& 1 <= line.length_with_line_breaks <= 2
            &&& next.start == line.start + line.length + line.length_with_line_breaks
        }
}

/// The lines found from a line's start on cut the rest of the text up.
pub proof fn lemma_lines_from_cut_up(text: Seq<char>, position: int, line_start: int)
    requires
        0 <= line_start <= position <= text.len() <= usize::MAX,
        forall|j: int| line_start <= j < position ==> !is_break(text[j]),
    ensures
        lines_cut_up(text, lines_from(text, position, line_start), line_start),
    decreases text.len() - position,
{
    let lines = lines_from(text, position, line_start);
    if position < text.len() {
        let width = line_break_width(text, position);
        if width == 0 {
            lemma_lines_from_cut_up(text, position + 1, line_start);
        } else {
            let rest = lines_from(text, position + width, position + width);
            lemma_lines_from_cut_up(text, position + width, position + width);
            let first = TextLineView {
                text,
                start: line_start as usize,
                length: (position - line_start) as usize,
                length_with_line_breaks: width as usize,
            };
            assert(lines =~= seq![first] + rest);
            assert(lines[0] == first);
            assert(lines.last() == rest.last());
            assert forall|i: int| 0 <= i < lines.len() implies {
                let line = #[trigger] lines[i];
                &&& line.text == text
                &&& line.start + line.length <= text.len()
                &&& forall|j: int| line.start <= j < line.start + line.length ==> !is_break(text[j])
            } by {
                if i > 0 {
                    assert(lines[i] == rest[i - 1]);
                }
            }
            assert forall|i: int| 0 <= i < lines.len() - 1 implies {
                let line = #[trigger] lines[i];
                let next = lines[i + 1];
                &&& line.length_with_line_breaks == line_break_width(text, line.start + line.length)
                &&& 1 <= line.length_with_line_breaks <= 2
                &&& next.start == line.start + line.length + line.length_with_line_breaks
            } by {
                assert(lines[i + 1] == rest[i]);
                if i > 0 {
                    assert(lines[i] == rest[i - 1]);
                }
            }
        }
    }
}

/// The lines of a text cut it up from its first character to its last: every
/// character is in exactly one line or in the line break behind one.
pub proof fn lemma_lines_cut_up(text: Seq<char>)
    requires
        text.len() <= usize::MAX,
    ensures
        lines_cut_up(text, lines_of(text), 0),
{
    lemma_lines_from_cut_up(text, 0, 0);
}

impl View for TextSpan {
    type V = TextSpanView;

    closed spec fn view(&self) -> TextSpanView {
        TextSpanView { start: self.start, length: self.length, end: self.end }
    }
}

impl View for TextLine {
    type V = TextLineView;

    closed spec fn view(&self) -> TextLineView {
        TextLineView {
            text: self.source.chars@,
            start: self.start,
            length: self.length,
            length_with_line_breaks: self.length_with_line_breaks,
        }
    }
}

impl View for SourceText {
    type V = SourceTextView;

    closed spec fn view(&self) -> SourceTextView {
        SourceTextView {
            text: self.chars@,
            lines: Seq::new(self.lines@.len(), |i: int| self.lines@[i]@),
        }
    }
}

impl Clone for TextLine {
    fn clone(&self) -> (copy: Self)
        ensures
            copy@ == self@,
    {
        TextLine::new(&self.source, self.start, self.length, self.length_with_line_breaks)
    }
}

impl Clone for SourceText {
    fn clone(&self) -> (copy: Self)
        ensures
            copy@ == self@,
    {
        let chars = copy_chars(&self.chars);
        let mut lines: Vec<TextLine> = Vec::new();
        let mut index: usize = 0;
        while index < self.lines.len()
            invariant
                index <= self.lines.len(),
                lines.len() == index,
                forall|i: int| 0 <= i < index ==> lines@[i]@ == self.lines@[i]@,
            decreases self.lines.len() - index,
        {
            lines.push(self.lines[index].clone());
            index += 1;
        }
        let copy = SourceText { chars, lines };
        assert(copy@.lines =~= self@.lines);
        copy
    }
}

/// A copy of a vector of characters.
fn copy_chars(chars: &Vec<char>) -> (copy: Vec<char>)
    ensures
        copy@ == chars@,
{
    let mut copy: Vec<char> = Vec::new();
    let mut index: usize = 0;
    while index < chars.len()
        invariant
            index <= chars.len(),
            copy@ == chars@.take(index as int),
        decreases chars.len() - index,
    {
        copy.push(chars[index]);
        index += 1;
    }
    copy
}

impl SourceText {
    /// The source text of a string, cut into its lines.
    pub fn new(text: String) -> (source: SourceText)
        ensures
            source@.text == text@,
            source@.lines == lines_of(text@),
    {
        let mut source = SourceText { chars: chars_of(text.as_str()), lines: Vec::new() };
        let lines = source.parse_lines();
        source.lines = lines;
        assert(source@.lines =~= lines_of(text@));
        source
    }

    /// The characters of the text.
    pub fn chars(&self) -> (chars: &Vec<char>)
        ensures
            chars@ == self@.text,
    {
        &self.chars
    }

    /// The lines of this text, found by one pass over its characters.
    pub fn parse_lines(&self) -> (lines: Vec<TextLine>)
        ensures
            lines@.len() == lines_of(self@.text).len(),
            forall|i: int|
                0 <= i < lines@.len() ==> (#[trigger] lines@[i])@ == lines_of(self@.text)[i],
    {
        let mut lines: Vec<TextLine> = Vec::new();
        let mut position: usize = 0;
        let mut line_start: usize = 0;
        let length = self.chars.len();
        let ghost text = self.chars@;
        let ghost done: Seq<TextLineView> = Seq::empty();
        while position < length
            invariant
                text == self.chars@,
                length == text.len(),
                line_start <= position <= length,
                lines@.len() == done.len(),
                forall|i: int| 0 <= i < lines@.len() ==> (#[trigger] lines@[i])@ == done[i],
                lines_of(text) == done + lines_from(text, position as int, line_start as int),
            decreases length - position,
        {
            let line_break_width = self.get_line_break_width(position);
            if line_break_width == 0 {
                position += 1;
            } else {
                let line = TextLine::new(self, line_start, position - line_start, line_break_width);
                proof {
                    let tail = lines_from(
                        text,
                        position + line_break_width,
                        position + line_break_width,
                    );
                    assert(done + (seq![line@] + tail) =~= done.push(line@) + tail);
                    done = done.push(line@);
                }
                lines.push(line);
                position += line_break_width;
                line_start = position;
            }
        }
        let line = TextLine::new(self, line_start, position - line_start, 0);
        proof {
            assert(done + seq![line@] =~= done.push(line@));
            done = done.push(line@);
        }
        lines.push(line);
        lines
    }

    /// The characters that a span covers.
    pub fn span_to_string(&self, span: TextSpan) -> (text: String)
        requires
            span@.start <= span@.end <= self@.text.len(),
        ensures
            text@ == self@.text.subrange(span@.start as int, span@.end as int),
    {
        self.bounds_to_string(span.start, span.end)
    }

    /// The whole text.
    pub fn to_string(&self) -> (text: String)
        ensures
            text@ == self@.text,
    {
        let text = string_of(&self.chars, 0, self.chars.len());
        assert(self.chars@.subrange(0, self.chars@.len() as int) =~= self.chars@);
        text
    }

    /// The characters from `start` up to `end`.
    pub fn bounds_to_string(&self, start: usize, end: usize) -> (text: String)
        requires
            start <= end <= self@.text.len(),
        ensures
            text@ == self@.text.subrange(start as int, end as int),
    {
        string_of(&self.chars, start, end)
    }

    /// The width of the line break that starts at `position`.
    pub fn get_line_break_width(&self, position: usize) -> (width: usize)
        requires
            position < self@.text.len(),
        ensures
            width == line_break_width(self@.text, position as int),
    {
        let length = self.chars.len();
        let c = self.chars[position];
        let l = if position + 1 >= length {
            '\0'
        } else {
            self.chars[position + 1]
        };
        if c == '\r' && l == '\n' {
            return 2;
        }
        if c == '\r' || c == '\n' {
            return 1;
        }
        0
    }

    /// How many characters the text has.
    pub fn len(&self) -> (length: usize)
        ensures
            length == self@.text.len(),
    {
        self.chars.len()
    }

    /// The character at `position`, or the NUL character behind the text's end.
    pub fn char_at(&self, position: usize) -> (character: char)
        ensures
            character == char_or_nul(self@.text, position as int),
    {
        if position >= self.chars.len() {
            '\0'
        } else {
            self.chars[position]
        }
    }
}

/// The character of `text` at `position`, and the NUL character where the
/// text has none.
pub open spec fn char_or_nul(text: Seq<char>, position: int) -> char {
    if 0 <= position < text.len() {
        text[position]
    } else {
        '\0'
    }
}

impl TextLine {
    /// A line of `source`. It keeps the text it was cut from.
    pub fn new(
        source: &SourceText,
        start: usize,
        length: usize,
        length_with_line_breaks: usize,
    ) -> (line: Self)
        ensures
            line@ == (TextLineView { text: source@.text, start, length, length_with_line_breaks }),
    {
        Self {
            source: SourceText { chars: copy_chars(&source.chars), lines: Vec::new() },
            start,
            length,
            length_with_line_breaks,
        }
    }

    pub fn get_start(&self) -> (start: usize)
        ensures
            start == self@.start,
    {
        self.start
    }

    pub fn get_length(&self) -> (length: usize)
        ensures
            length == self@.length,
    {
        self.length
    }

    pub fn get_length_with_line_breaks(&self) -> (length: usize)
        ensures
            length == self@.length_with_line_breaks,
    {
        self.length_with_line_breaks
    }

    /// The offset behind the line's last character.
    pub fn get_end(&self) -> (end: usize)
        requires
            self@.start + self@.length <= usize::MAX,
        ensures
            end == self@.start + self@.length,
    {
        self.start + self.length
    }

    /// The span of the line's characters.
    pub fn get_span(&self) -> (span: TextSpan)
        requires
            self@.start + self@.length <= usize::MAX,
        ensures
            span@ == (TextSpanView {
                start: self@.start,
                length: self@.length,
                end: (self@.start + self@.length) as usize,
            }),
    {
        TextSpan::new(self.start, self.length)
    }

    /// The span that starts with the line and has its second length.
    pub fn get_span_with_line_breaks(&self) -> (span: TextSpan)
        requires
            self@.start + self@.length_with_line_breaks <= usize::MAX,
        ensures
            span@ == (TextSpanView {
                start: self@.start,
                length: self@.length_with_line_breaks,
                end: (self@.start + self@.length_with_line_breaks) as usize,
            }),
    {
        TextSpan::new(self.start, self.length_with_line_breaks)
    }

    /// The characters of the line, without its line break.
    pub fn to_string(&self) -> (text: String)
        requires
            self@.start + self@.length <= self@.text.len(),
        ensures
            text@ == self@.text.subrange(self@.start as int, self@.start + self@.length),
    {
        let length = self.source.len();
        assert(self@.start + self@.length <= length);
        self.source.span_to_string(self.get_span())
    }
}

impl TextSpan {
    /// The span of `length` characters from `start`.
    pub fn new(start: usize, length: usize) -> (span: Self)
        requires
            start + length <= usize::MAX,
        ensures
            span@ == (TextSpanView { start, length, end: (start + length) as usize }),
    {
        Self { start, length, end: start + length }
    }

    pub fn get_start(&self) -> (start: usize)
        ensures
            start == self@.start,
    {
        self.start
    }

    pub fn get_length(&self) -> (length: usize)
        ensures
            length == self@.length,
    {
        self.length
    }

    pub fn get_end(&self) -> (end: usize)
        ensures
            end == self@.end,
    {
        self.end
    }
}

} // verus!

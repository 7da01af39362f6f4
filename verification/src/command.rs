//! The commands of the console, read from one line of input.
//!
//! A line is taken as bytes, as it was read, with its line feed if it has
//! one. White space around a command does not count. What counts as white
//! space is what Unicode calls so, in its UTF-8 encoding; a byte that is not
//! part of such a character is part of the command.

use vstd::prelude::*;
use vstd::string::StringSliceAdditionalSpecFns;
use crate::led::LedState;

verus! {

/// The byte that ends a line.
pub const LINE_FEED: u8 = 0x0a;

/// The three bytes encode one of the white space characters that take three
/// bytes: U+1680, U+2000 to U+200A, U+2028, U+2029, U+202F, U+205F, U+3000.
pub open spec fn is_wide_space(first: u8, second: u8, third: u8) -> bool {
    ||| first == 0xe1 && second == 0x9a && third == 0x80
    ||| first == 0xe2 && second == 0x80 && (0x80 <= third <= 0x8a || third == 0xa8 || third == 0xa9
        || third == 0xaf)
    ||| first == 0xe2 && second == 0x81 && third == 0x9f
    ||| first == 0xe3 && second == 0x80 && third == 0x80
}

/// The number of bytes of the white space character that starts at `at`, or
/// 0 if none starts there. One byte: U+0009 to U+000D and U+0020. Two bytes:
/// U+0085 and U+00A0.
pub open spec fn space_len(line: Seq<u8>, at: int) -> int {
    if !(0 <= at < line.len()) {
        0
    } else if 0x09 <= line[at] <= 0x0d || line[at] == 0x20 {
        1
    } else if at + 1 < line.len() && line[at] == 0xc2 && (line[at + 1] == 0x85 || line[at + 1]
        == 0xa0) {
        2
    } else if at + 2 < line.len() && is_wide_space(line[at], line[at + 1], line[at + 2]) {
        3
    } else {
        0
    }
}

/// Where the white space that starts at `from` ends.
pub open spec fn skip_spaces(line: Seq<u8>, from: int) -> int
    decreases line.len() - from,
{
    if space_len(line, from) > 0 {
        skip_spaces(line, from + space_len(line, from))
    } else {
        from
    }
}

/// Where the last byte that is not white space ends, looking from `from` on;
/// `end` if there is none.
pub open spec fn ink_end(line: Seq<u8>, from: int, end: int) -> int
    decreases line.len() - from,
{
    if !(0 <= from < line.len()) {
        end
    } else if space_len(line, from) > 0 {
        ink_end(line, from + space_len(line, from), end)
    } else {
        ink_end(line, from + 1, from + 1)
    }
}

/// Where the command starts: behind the white space that the line starts
/// with.
pub open spec fn word_start(line: Seq<u8>) -> int {
    skip_spaces(line, 0)
}

/// Where the command ends: before the white space that the line ends with.
pub open spec fn word_end(line: Seq<u8>) -> int {
    ink_end(line, word_start(line), word_start(line))
}

/// The line without the white space around it.
pub open spec fn trimmed(line: Seq<u8>) -> Seq<u8> {
    line.subrange(word_start(line), word_end(line))
}

/// Where the text of a `display:` command ends: before the line feed that
/// ends the line, or at the end of a line that has none.
pub open spec fn text_end(line: Seq<u8>) -> int {
    if line.len() > 0 && line.last() == LINE_FEED {
        line.len() - 1
    } else {
        line.len() as int
    }
}

/// The text of a `display:` command: all that follows the colon, as it is,
/// up to the end of the line.
pub open spec fn display_text(line: Seq<u8>) -> Seq<u8> {
    line.subrange(word_start(line) + "display:".spec_bytes().len(), text_end(line))
}

/// `word` starts with `prefix`.
pub open spec fn starts_with(word: Seq<u8>, prefix: Seq<u8>) -> bool {
    prefix.len() <= word.len() && word.subrange(0, prefix.len() as int) == prefix
}

/// What a line of input asks for.
pub enum Parsed {
    /// Nothing was read.
    Empty,
    /// A request for the light.
    Led(LedState),
    /// Clear the display.
    Clear,
    /// Show this text on the display.
    Display(Seq<u8>),
    /// None of the commands; the line without the white space around it.
    Unknown(Seq<u8>),
}

/// What a line of input asks for.
pub open spec fn parse_spec(line: Seq<u8>) -> Parsed {
    let word = trimmed(line);
    if line.len() == 0 {
        Parsed::Empty
    } else if word == "led:off".spec_bytes() {
        Parsed::Led(LedState::Off)
    } else if word == "led:red".spec_bytes() {
        Parsed::Led(LedState::Red)
    } else if word == "led:green".spec_bytes() {
        Parsed::Led(LedState::Green)
    } else if word == "led:blue".spec_bytes() {
        Parsed::Led(LedState::Blue)
    } else if word == "led:random".spec_bytes() || word == "led:rand".spec_bytes() || word
        == "led:rnd".spec_bytes() {
        Parsed::Led(LedState::Random)
    } else if word == "clr".spec_bytes() {
        Parsed::Clear
    } else if starts_with(word, "display:".spec_bytes()) {
        Parsed::Display(display_text(line))
    } else {
        Parsed::Unknown(word)
    }
}

/// What a line of input asks for.
#[derive(Debug, PartialEq, Eq)]
pub enum Command {
    /// Nothing was read.
    Empty,
    /// A request for the light.
    Led(LedState),
    /// Clear the display.
    Clear,
    /// Show this text on the display.
    Display(Vec<u8>),
    /// None of the commands; the line without the white space around it.
    Unknown(Vec<u8>),
}

impl View for Command {
    type V = Parsed;

    open spec fn view(&self) -> Parsed {
        match *self {
            Command::Empty => Parsed::Empty,
            Command::Led(state) => Parsed::Led(state),
            Command::Clear => Parsed::Clear,
            Command::Display(text) => Parsed::Display(text@),
            Command::Unknown(word) => Parsed::Unknown(word@),
        }
    }
}

/// The command never starts or ends outside the line, and never ends before
/// it starts.
pub proof fn lemma_word_bounds(line: Seq<u8>)
    ensures
        0 <= word_start(line) <= word_end(line) <= line.len(),
{
    lemma_skip_bounds(line, 0);
    lemma_ink_bounds(line, word_start(line), word_start(line));
}

proof fn lemma_skip_bounds(line: Seq<u8>, from: int)
    requires
        0 <= from <= line.len(),
    ensures
        from <= skip_spaces(line, from) <= line.len(),
    decreases line.len() - from,
{
    if space_len(line, from) > 0 {
        lemma_skip_bounds(line, from + space_len(line, from));
    }
}

proof fn lemma_ink_bounds(line: Seq<u8>, from: int, end: int)
    requires
        0 <= end <= from <= line.len(),
    ensures
        end <= ink_end(line, from, end) <= line.len(),
    decreases line.len() - from,
{
    if 0 <= from < line.len() {
        if space_len(line, from) > 0 {
            lemma_ink_bounds(line, from + space_len(line, from), end);
        } else {
            lemma_ink_bounds(line, from + 1, from + 1);
        }
    }
}

/// A line feed at the end of the line is white space, so the command ends
/// before it.
proof fn lemma_ink_stops_before_line_feed(line: Seq<u8>, from: int, end: int)
    requires
        0 <= end <= from <= line.len(),
        line.len() > 0,
        line.last() == LINE_FEED,
        end <= line.len() - 1,
    ensures
        ink_end(line, from, end) <= line.len() - 1,
    decreases line.len() - from,
{
    if 0 <= from < line.len() {
        if space_len(line, from) > 0 {
            lemma_ink_stops_before_line_feed(line, from + space_len(line, from), end);
        } else {
            assert(from < line.len() - 1);
            lemma_ink_stops_before_line_feed(line, from + 1, from + 1);
        }
    }
}

/// The word `display:` has eight bytes.
pub proof fn lemma_display_prefix()
    ensures
        "display:".spec_bytes().len() == 8,
{
    reveal_strlit("display:");
    vstd::string::is_ascii_spec_bytes("display:");
}

/// The text of a `display:` command lies within the line, behind the colon.
pub proof fn lemma_text_bounds(line: Seq<u8>)
    requires
        starts_with(trimmed(line), "display:".spec_bytes()),
    ensures
        0 <= word_start(line) + "display:".spec_bytes().len() <= text_end(line) <= line.len(),
{
    lemma_word_bounds(line);
    lemma_display_prefix();
    if line.len() > 0 && line.last() == LINE_FEED {
        lemma_skip_bounds(line, 0);
        let start = word_start(line);
        if start == line.len() {
            assert(word_end(line) == start);
        } else {
            lemma_ink_stops_before_line_feed(line, start, start);
        }
    }
}

/// The number of bytes of the white space character that starts at `at`.
fn space_len_at(line: &[u8], at: usize) -> (len: usize)
    requires
        at < line.len(),
    ensures
        len == space_len(line@, at as int),
        at + len <= line.len(),
{
    let first = line[at];
    if (0x09 <= first && first <= 0x0d) || first == 0x20 {
        1
    } else if first == 0xc2 && line.len() - at > 1 && (line[at + 1] == 0x85 || line[at + 1]
        == 0xa0) {
        2
    } else if line.len() - at > 2 && wide_space(first, line[at + 1], line[at + 2]) {
        3
    } else {
        0
    }
}

fn wide_space(first: u8, second: u8, third: u8) -> (wide: bool)
    ensures
        wide == is_wide_space(first, second, third),
{
    (first == 0xe1 && second == 0x9a && third == 0x80) || (first == 0xe2 && second == 0x80 && ((0x80
        <= third && third <= 0x8a) || third == 0xa8 || third == 0xa9 || third == 0xaf)) || (first
        == 0xe2 && second == 0x81 && third == 0x9f) || (first == 0xe3 && second == 0x80 && third
        == 0x80)
}

/// Finds where the command starts and where it ends.
fn word_bounds(line: &[u8]) -> (bounds: (usize, usize))
    ensures
        bounds.0 == word_start(line@),
        bounds.1 == word_end(line@),
        bounds.0 <= bounds.1 <= line.len(),
{
    let mut start: usize = 0;
    loop
        invariant
            start <= line.len(),
            skip_spaces(line@, start as int) == word_start(line@),
        ensures
            start <= line.len(),
            start == word_start(line@),
        decreases line.len() - start,
    {
        if start >= line.len() {
            break ;
        }
        let len = space_len_at(line, start);
        if len == 0 {
            break ;
        }
        start = start + len;
    }
    let mut at: usize = start;
    let mut end: usize = start;
    while at < line.len()
        invariant
            start <= end <= at <= line.len(),
            start == word_start(line@),
            ink_end(line@, at as int, end as int) == word_end(line@),
        decreases line.len() - at,
    {
        let len = space_len_at(line, at);
        if len == 0 {
            at = at + 1;
            end = at;
        } else {
            at = at + len;
        }
    }
    (start, end)
}

/// Says whether the bytes of the line from `from` to `to` are `name`.
fn is_word(line: &[u8], from: usize, to: usize, name: &str) -> (hit: bool)
    requires
        from <= to <= line.len(),
    ensures
        hit == (line@.subrange(from as int, to as int) == name.spec_bytes()),
{
    let bytes = name.as_bytes();
    if to - from != bytes.len() {
        return false;
    }
    let ghost word = line@.subrange(from as int, to as int);
    let mut i: usize = 0;
    while i < bytes.len()
        invariant
            from <= to <= line.len(),
            to - from == bytes.len(),
            i <= bytes.len(),
            bytes@ == name.spec_bytes(),
            word == line@.subrange(from as int, to as int),
            forall|j: int| 0 <= j < i ==> word[j] == bytes@[j],
        decreases bytes.len() - i,
    {
        if line[from + i] != bytes[i] {
            assert(word[i as int] != bytes@[i as int]);
            return false;
        }
        i = i + 1;
    }
    assert(word =~= bytes@);
    true
}

/// Copies the bytes of the line from `from` to `to`.
fn copy_range(line: &[u8], from: usize, to: usize) -> (copy: Vec<u8>)
    requires
        from <= to <= line.len(),
    ensures
        copy@ == line@.subrange(from as int, to as int),
{
    let mut copy: Vec<u8> = Vec::new();
    let mut at: usize = from;
    while at < to
        invariant
            from <= at <= to <= line.len(),
            copy@ == line@.subrange(from as int, at as int),
        decreases to - at,
    {
        copy.push(line[at]);
        assert(copy@ =~= line@.subrange(from as int, at + 1));
        at = at + 1;
    }
    copy
}

/// Reads the command from one line of input.
///
/// A line of no bytes at all is empty input. White space around the command
/// does not count. The commands for the light and `clr` are the whole
/// command; `display:` is followed by its text, which runs to the end of the
/// line, with any white space it holds, but without the line feed that ends
/// the line. Anything else is unknown.
pub fn parse(line: &[u8]) -> (command: Command)
    ensures
        command@ == parse_spec(line@),
{
    if line.len() == 0 {
        return Command::Empty;
    }
    let (start, end) = word_bounds(line);
    if is_word(line, start, end, "led:off") {
        Command::Led(LedState::Off)
    } else if is_word(line, start, end, "led:red") {
        Command::Led(LedState::Red)
    } else if is_word(line, start, end, "led:green") {
        Command::Led(LedState::Green)
    } else if is_word(line, start, end, "led:blue") {
        Command::Led(LedState::Blue)
    } else if is_word(line, start, end, "led:random") || is_word(line, start, end, "led:rand")
        || is_word(line, start, end, "led:rnd") {
        Command::Led(LedState::Random)
    } else if is_word(line, start, end, "clr") {
        Command::Clear
    } else {
        let prefix = "display:".len();
        let ghost word = trimmed(line@);
        if end - start >= prefix && is_word(line, start, start + prefix, "display:") {
            proof {
                assert(word.subrange(0, prefix as int) =~= line@.subrange(
                    start as int,
                    start + prefix,
                ));
                lemma_text_bounds(line@);
            }
            let stop = if line[line.len() - 1] == LINE_FEED {
                line.len() - 1
            } else {
                line.len()
            };
            Command::Display(copy_range(line, start + prefix, stop))
        } else {
            proof {
                if prefix <= word.len() {
                    assert(word.subrange(0, prefix as int) =~= line@.subrange(
                        start as int,
                        start + prefix,
                    ));
                }
            }
            Command::Unknown(copy_range(line, start, end))
        }
    }
}

} // verus!

use c3aznable::command::{parse, Command};
use c3aznable::led::LedState;

fn unknown(word: &[u8]) -> Command {
    Command::Unknown(word.to_vec())
}

fn display(text: &[u8]) -> Command {
    Command::Display(text.to_vec())
}

#[test]
fn no_bytes_at_all_is_empty_input() {
    assert_eq!(parse(b""), Command::Empty);
}

#[test]
fn a_blank_line_is_not_empty_input() {
    assert_eq!(parse(b"\n"), unknown(b""));
    assert_eq!(parse(b"   \r\n"), unknown(b""));
    assert_eq!(parse(b" "), unknown(b""));
}

#[test]
fn light_commands_are_read() {
    assert_eq!(parse(b"led:off\n"), Command::Led(LedState::Off));
    assert_eq!(parse(b"led:red\n"), Command::Led(LedState::Red));
    assert_eq!(parse(b"led:green\n"), Command::Led(LedState::Green));
    assert_eq!(parse(b"led:blue\n"), Command::Led(LedState::Blue));
}

#[test]
fn random_has_three_spellings() {
    assert_eq!(parse(b"led:random\n"), Command::Led(LedState::Random));
    assert_eq!(parse(b"led:rand\n"), Command::Led(LedState::Random));
    assert_eq!(parse(b"led:rnd\n"), Command::Led(LedState::Random));
}

#[test]
fn clr_is_read() {
    assert_eq!(parse(b"clr\n"), Command::Clear);
    assert_eq!(parse(b"clr"), Command::Clear);
}

#[test]
fn white_space_around_a_command_does_not_count() {
    assert_eq!(parse(b"  led:red \t\r\n"), Command::Led(LedState::Red));
    assert_eq!(parse(b"\x0b\x0cclr\x0c\x0b"), Command::Clear);
    assert_eq!(parse("\u{a0}led:blue\u{2003}\n".as_bytes()), Command::Led(LedState::Blue));
    assert_eq!(parse("\u{3000}\u{85}clr\u{1680}\u{205f}".as_bytes()), Command::Clear);
}

#[test]
fn every_unicode_white_space_is_trimmed() {
    let mut spaces = String::new();
    for code in 0..=0x3100u32 {
        if let Some(c) = char::from_u32(code) {
            if c.is_whitespace() {
                spaces.push(c);
            }
        }
    }
    assert_eq!(spaces.chars().count(), 25);
    let line = format!("{spaces}clr{spaces}");
    assert_eq!(parse(line.as_bytes()), Command::Clear);
    for c in spaces.chars() {
        let line = format!("{c}led:off{c}");
        assert_eq!(parse(line.as_bytes()), Command::Led(LedState::Off));
    }
}

#[test]
fn white_space_inside_a_command_counts() {
    assert_eq!(parse(b"led: off\n"), unknown(b"led: off"));
    assert_eq!(parse(b"c lr\n"), unknown(b"c lr"));
}

#[test]
fn commands_are_whole_words() {
    assert_eq!(parse(b"led:offx\n"), unknown(b"led:offx"));
    assert_eq!(parse(b"xled:off\n"), unknown(b"xled:off"));
    assert_eq!(parse(b"led:of\n"), unknown(b"led:of"));
    assert_eq!(parse(b"clr clr\n"), unknown(b"clr clr"));
    assert_eq!(parse(b"LED:OFF\n"), unknown(b"LED:OFF"));
    assert_eq!(parse(b"led:\n"), unknown(b"led:"));
}

#[test]
fn unknown_text_is_reported_without_the_white_space_around_it() {
    assert_eq!(parse(b"foo"), unknown(b"foo"));
    assert_eq!(parse(b"  foo bar \n"), unknown(b"foo bar"));
    assert_eq!(parse(b"display\n"), unknown(b"display"));
    assert_eq!(parse(b"display :x\n"), unknown(b"display :x"));
}

#[test]
fn bytes_that_are_no_character_are_part_of_the_command() {
    assert_eq!(parse(b"\xffclr\n"), unknown(b"\xffclr"));
    assert_eq!(parse(b"clr\xc2\n"), unknown(b"clr\xc2"));
    assert_eq!(parse(b"\xe2\x80clr\n"), unknown(b"\xe2\x80clr"));
    assert_eq!(parse(b"\xe2\x80\x8bclr\n"), unknown(b"\xe2\x80\x8bclr"));
    assert_eq!(parse(b"\x80\x20clr\n"), unknown(b"\x80\x20clr"));
}

#[test]
fn display_carries_the_text_after_the_colon() {
    assert_eq!(parse(b"display:hello\n"), display(b"hello"));
    assert_eq!(parse(b"display:\n"), display(b""));
    assert_eq!(parse(b"display:a b  c\n"), display(b"a b  c"));
    assert_eq!(parse(b"display: hi \n"), display(b" hi "));
    assert_eq!(parse(b"display:display:\n"), display(b"display:"));
}

#[test]
fn display_text_ends_at_the_line_feed_only() {
    assert_eq!(parse(b"display:hello\r\n"), display(b"hello\r"));
    assert_eq!(parse(b"display:hello"), display(b"hello"));
    assert_eq!(parse(b"display:"), display(b""));
    assert_eq!(parse(b"display:hello \t"), display(b"hello \t"));
}

#[test]
fn display_text_starts_behind_the_colon_whatever_comes_before_the_command() {
    assert_eq!(parse(b"  display:hi\n"), display(b"hi"));
    assert_eq!(parse("\u{2000}display:hi\n".as_bytes()), display(b"hi"));
}

#[test]
fn display_text_is_taken_as_bytes() {
    assert_eq!(parse(b"display:\xff\x00\xe2\n"), display(b"\xff\x00\xe2"));
    assert_eq!(parse("display:héllo\n".as_bytes()), display("héllo".as_bytes()));
}

/// What the command is by the text of the line: decoded with replacement
/// characters for what is no UTF-8, and trimmed.
fn by_text(line: &[u8]) -> &'static str {
    if line.is_empty() {
        return "empty";
    }
    let text = String::from_utf8_lossy(line);
    match text.as_ref().trim() {
        "led:off" => "off",
        "led:red" => "red",
        "led:green" => "green",
        "led:blue" => "blue",
        "led:random" | "led:rand" | "led:rnd" => "random",
        "clr" => "clear",
        rest if rest.starts_with("display:") => "display",
        _ => "unknown",
    }
}

fn kind(command: &Command) -> &'static str {
    match command {
        Command::Empty => "empty",
        Command::Led(LedState::Off) => "off",
        Command::Led(LedState::Red) => "red",
        Command::Led(LedState::Green) => "green",
        Command::Led(LedState::Blue) => "blue",
        Command::Led(LedState::Random) => "random",
        Command::Led(LedState::RGB(_, _, _)) => "rgb",
        Command::Clear => "clear",
        Command::Display(_) => "display",
        Command::Unknown(_) => "unknown",
    }
}

fn agrees_with_text(line: &[u8]) {
    let command = parse(line);
    assert_eq!(kind(&command), by_text(line), "line {line:?}");
    if let Command::Unknown(word) = &command {
        let text = String::from_utf8_lossy(line);
        assert_eq!(String::from_utf8_lossy(word).as_ref(), text.as_ref().trim(), "line {line:?}");
    }
    if let Command::Display(shown) = &command {
        if line.len() > 8 && line.starts_with(b"display:") && line.ends_with(b"\n") {
            assert_eq!(shown[..], line[8..line.len() - 1], "line {line:?}");
        }
    }
}

#[test]
fn parse_agrees_with_trimmed_text_on_lines_built_from_parts() {
    let parts: [&[u8]; 30] = [
        b"",
        b" ",
        b"\n",
        b"\r\n",
        b"\t",
        b"\x0b",
        b"\x0c",
        b"\xc2\x85",
        b"\xc2\xa0",
        b"\xe1\x9a\x80",
        b"\xe2\x80\x80",
        b"\xe2\x80\x8a",
        b"\xe2\x80\x8b",
        b"\xe2\x80\xa8",
        b"\xe2\x80\xaf",
        b"\xe2\x81\x9f",
        b"\xe3\x80\x80",
        b"\xe3\x80\x81",
        b"\xc2",
        b"\xe2\x80",
        b"\xff",
        b"\x80",
        b"\xf0\x9f\x98\x80",
        b"led:off",
        b"led:rnd",
        b"clr",
        b"display:",
        b"display:hi",
        b"x",
        b"\xc3\xa9",
    ];
    for a in parts {
        for b in parts {
            for c in parts {
                let mut line = Vec::new();
                line.extend_from_slice(a);
                line.extend_from_slice(b);
                line.extend_from_slice(c);
                agrees_with_text(&line);
            }
        }
    }
}

#[test]
fn parse_agrees_with_trimmed_text_on_scrambled_lines() {
    let alphabet: [u8; 32] = [
        0x09, 0x0a, 0x0b, 0x0c, 0x0d, 0x20, 0x85, 0xa0, 0xc2, 0xe1, 0x9a, 0x80, 0xe2, 0x81, 0x9f,
        0xe3, 0x8a, 0xa8, 0xa9, 0xaf, 0x8b, 0xff, 0xf0, 0x90, b'c', b'l', b'r', b'e', b'd', b':',
        b'o', b'f',
    ];
    let mut word = 0x9e37_79b9u32;
    for _ in 0..20000 {
        let mut line = Vec::new();
        word ^= word << 13;
        word ^= word >> 17;
        word ^= word << 5;
        let len = (word % 9) as usize;
        for _ in 0..len {
            word ^= word << 13;
            word ^= word >> 17;
            word ^= word << 5;
            line.push(alphabet[(word % 32) as usize]);
        }
        agrees_with_text(&line);
        let mut framed = b"\xe2\x80\x83 clr".to_vec();
        framed.extend_from_slice(&line);
        agrees_with_text(&framed);
        let mut shown = line.clone();
        shown.extend_from_slice(b"display:");
        shown.extend_from_slice(&line);
        agrees_with_text(&shown);
    }
}

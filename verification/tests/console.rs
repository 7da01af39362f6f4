use c3aznable::char_lcd::{BusOp, CharLCD, LcdPinMap};
use c3aznable::console::{
    after_read_fault, Console, Reaction, ReadFault, Recovery, READ_RETRY_US, STARTUP_LIGHT,
};
use c3aznable::led::LedState;
use c3aznable::protocol::DisplayState;

fn pins() -> LcdPinMap {
    LcdPinMap { rs: 0, en: 10, d4: 4, d5: 5, d6: 6, d7: 7 }
}

fn running() -> Console {
    let mut bus = CharLCD::init(pins()).unwrap();
    bus.take_ops();
    let mut console = Console::start(bus);
    console.take_ops();
    console
}

/// The bytes that the operations carry: at each second fall of enable, the
/// level of register select and the two nibbles latched, high one first.
fn bytes_sent(ops: &[BusOp]) -> Vec<(bool, u8)> {
    let pins = pins();
    let mut rs = false;
    let mut en = false;
    let mut data = 0u8;
    let mut high: Option<u8> = None;
    let mut sent = Vec::new();
    for op in ops {
        if let BusOp::Level { pin, high: level } = *op {
            let before = en;
            if pin == pins.rs {
                rs = level;
            }
            if pin == pins.en {
                en = level;
            }
            for (bit, line) in [pins.d4, pins.d5, pins.d6, pins.d7].iter().enumerate() {
                if pin == *line {
                    data = (data & !(1 << bit)) | (u8::from(level) << bit);
                }
            }
            if before && !en {
                match high.take() {
                    None => high = Some(data),
                    Some(first) => sent.push((rs, first << 4 | data)),
                }
            }
        }
    }
    assert_eq!(high, None);
    sent
}

const READY: DisplayState = DisplayState { power: true, cursor: true, blink: true };
const SHOWING: DisplayState = DisplayState { power: true, cursor: false, blink: false };

#[test]
fn the_light_starts_off() {
    assert_eq!(STARTUP_LIGHT, LedState::Off);
}

#[test]
fn start_initializes_the_display_and_makes_it_ready() {
    let bus = CharLCD::init(pins()).unwrap();
    let mut console = Console::start(bus);
    assert_eq!(console.display_state(), READY);
    let ops = console.take_ops();
    assert_eq!(
        ops[..7],
        [
            BusOp::Level { pin: 0, high: true },
            BusOp::Level { pin: 10, high: false },
            BusOp::DelayUs { micros: 50 },
            BusOp::Level { pin: 4, high: false },
            BusOp::Level { pin: 5, high: false },
            BusOp::Level { pin: 6, high: false },
            BusOp::Level { pin: 7, high: false },
        ]
    );
    let ready = &ops[ops.len() - 18..];
    assert_eq!(bytes_sent(ready), vec![(false, 0x0f)]);
    let commands = &ops[ops.len() - 18 - 73..];
    assert_eq!(
        bytes_sent(commands),
        vec![(false, 0x28), (false, 0x08), (false, 0x01), (false, 0x06), (false, 0x0f)]
    );
}

#[test]
fn start_sends_nothing_but_the_initialization_and_the_switches() {
    let mut bus = CharLCD::init(pins()).unwrap();
    bus.take_ops();
    let mut console = Console::start(bus);
    let ops = console.take_ops();
    assert_eq!(ops[0], BusOp::Level { pin: 0, high: false });
    assert_eq!(ops.len(), 1 + 8 + 1 + 4 + 1 + 4 + 1 + 8 + 1 + 73 + 18);
}

#[test]
fn empty_input_is_silently_ignored() {
    let mut console = running();
    assert_eq!(console.handle_line(b""), Reaction::Nothing);
    assert_eq!(console.take_ops(), vec![]);
    assert_eq!(console.display_state(), READY);
}

#[test]
fn light_commands_are_due_to_the_light_and_leave_the_display_alone() {
    let cases: [(&[u8], LedState); 7] = [
        (b"led:off\n", LedState::Off),
        (b"led:red\n", LedState::Red),
        (b"led:green\n", LedState::Green),
        (b"led:blue\n", LedState::Blue),
        (b"led:random\n", LedState::Random),
        (b"led:rand\n", LedState::Random),
        (b"led:rnd\n", LedState::Random),
    ];
    for (line, state) in cases {
        let mut console = running();
        assert_eq!(console.handle_line(line), Reaction::Light(state));
        assert_eq!(console.take_ops(), vec![]);
        assert_eq!(console.display_state(), READY);
    }
}

#[test]
fn clr_clears_and_makes_the_display_ready_again() {
    let mut console = running();
    console.handle_line(b"display:x\n");
    console.take_ops();
    assert_eq!(console.handle_line(b"clr\n"), Reaction::Display);
    assert_eq!(console.display_state(), READY);
    let ops = console.take_ops();
    assert_eq!(bytes_sent(&ops), vec![(false, 0x01), (false, 0x0f)]);
    assert!(ops.contains(&BusOp::DelayUs { micros: 2000 }));
}

#[test]
fn unknown_command_changes_nothing_and_is_one_diagnostic() {
    let mut console = running();
    let before = console.display_state();
    assert_eq!(console.handle_line(b"foo"), Reaction::Unknown(b"foo".to_vec()));
    assert_eq!(console.display_state(), before);
    assert_eq!(console.take_ops(), vec![]);
}

#[test]
fn unknown_command_leaves_recorded_operations_as_they_were() {
    let mut console = running();
    console.handle_line(b"clr\n");
    let mut twin = running();
    twin.handle_line(b"clr\n");
    assert_eq!(console.handle_line(b"  what is this \n"), Reaction::Unknown(b"what is this".to_vec()));
    assert_eq!(console.display_state(), twin.display_state());
    assert_eq!(console.take_ops(), twin.take_ops());
}

#[test]
fn display_hello_after_clr_sends_exactly_five_data_bytes_in_order() {
    let mut console = running();
    assert_eq!(console.handle_line(b"clr\n"), Reaction::Display);
    console.take_ops();
    assert_eq!(console.handle_line(b"display:hello\n"), Reaction::Display);
    assert_eq!(console.display_state(), SHOWING);
    let sent = bytes_sent(&console.take_ops());
    assert_eq!(
        sent,
        vec![(false, 0x0c), (true, b'h'), (true, b'e'), (true, b'l'), (true, b'l'), (true, b'o')]
    );
    let data: Vec<u8> = sent.iter().filter(|(rs, _)| *rs).map(|(_, byte)| *byte).collect();
    assert_eq!(data, b"hello");
    assert!(sent[1..].iter().all(|(rs, _)| *rs));
}

#[test]
fn display_of_nothing_only_switches_the_cursor_off() {
    let mut console = running();
    assert_eq!(console.handle_line(b"display:\n"), Reaction::Display);
    assert_eq!(bytes_sent(&console.take_ops()), vec![(false, 0x0c)]);
    assert_eq!(console.display_state(), SHOWING);
}

#[test]
fn display_writes_its_text_verbatim() {
    let mut console = running();
    console.handle_line(b"display: a\tb \n");
    let sent = bytes_sent(&console.take_ops());
    let data: Vec<u8> = sent.iter().filter(|(rs, _)| *rs).map(|(_, byte)| *byte).collect();
    assert_eq!(data, b" a\tb ");
}

#[test]
fn lines_are_handled_one_after_the_other() {
    let mut console = running();
    console.handle_line(b"display:ab\n");
    console.handle_line(b"led:red\n");
    console.handle_line(b"nonsense\n");
    console.handle_line(b"display:c\n");
    let sent = bytes_sent(&console.take_ops());
    assert_eq!(
        sent,
        vec![(false, 0x0c), (true, b'a'), (true, b'b'), (false, 0x0c), (true, b'c')]
    );
}

#[test]
fn a_read_that_brought_nothing_for_now_waits_a_little() {
    assert_eq!(READ_RETRY_US, 100);
    assert_eq!(after_read_fault(ReadFault::WouldBlock), Recovery::Wait(100));
    assert_eq!(after_read_fault(ReadFault::TimedOut), Recovery::Wait(100));
    assert_eq!(after_read_fault(ReadFault::Interrupted), Recovery::Wait(100));
}

#[test]
fn any_other_failed_read_is_reported() {
    assert_eq!(after_read_fault(ReadFault::Other), Recovery::Report);
}

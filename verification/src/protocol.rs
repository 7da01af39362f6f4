//! The 4-bit protocol of the display controller, as what each operation asks
//! of the bus adapter.
//!
//! A byte crosses the bus as two nibbles, the high one first. A nibble is put
//! on the four data lines and latched by a pulse on enable. Register select
//! tells an instruction from character data and is set once, before the
//! first nibble of the byte. The bus adapter holds the bus after every pulse
//! for the time that the controller needs to settle; the waits named here
//! come on top of that.

use vstd::prelude::*;
use crate::char_lcd::{BusOp, BusView, LcdPinMap, SETTLE_US};

verus! {

/// How many lines of text the display shows.
#[derive(Clone, Copy, Debug, PartialEq, Eq)]
pub enum Lines {
    One,
    Two,
}

/// The dot matrix of one character.
#[derive(Clone, Copy, Debug, PartialEq, Eq)]
pub enum Matrix {
    Dots5x8,
    Dots5x10,
}

/// What the controller is told once, when it is initialized.
#[derive(Clone, Copy, Debug, PartialEq, Eq)]
pub struct FunctionConfig {
    pub lines: Lines,
    pub matrix: Matrix,
}

/// The three switches of the display: the display itself, the cursor, and the
/// blinking of the character under the cursor.
#[derive(Clone, Copy, Debug, PartialEq, Eq)]
pub struct DisplayState {
    pub power: bool,
    pub cursor: bool,
    pub blink: bool,
}

/// Microseconds that enable is held high in a pulse.
pub const PULSE_US: u32 = 1;

/// Microseconds more that a data byte is given, for the address counter.
pub const ADDRESS_US: u32 = 5;

/// Microseconds more that clearing the display is given.
pub const CLEAR_US: u32 = 2000;

/// Microseconds after the first wake-up pulse of the initialization.
pub const WAKE_FIRST_US: u32 = 4500;

/// Microseconds after the second wake-up pulse of the initialization.
pub const WAKE_SECOND_US: u32 = 150;

/// The instruction that clears the display.
pub const CLEAR_DISPLAY: u8 = 0x01;

/// The instruction that sets the entry mode to: move right, do not shift.
pub const ENTRY_RIGHT_NO_SHIFT: u8 = 0x06;

/// The nibble that asks for the 8-bit interface.
pub const WAKE_NIBBLE: u8 = 0x3;

/// The nibble that asks for the 4-bit interface.
pub const FOUR_BIT_NIBBLE: u8 = 0x2;

/// The instruction that sets the three switches of the display.
pub open spec fn display_control_byte(state: DisplayState) -> u8 {
    (0x08 + (if state.power { 4int } else { 0int }) + (if state.cursor { 2int } else { 0int }) + (
    if state.blink { 1int } else { 0int })) as u8
}

/// The instruction that latches the 4-bit interface with the line count and
/// the character matrix.
pub open spec fn function_set_byte(config: FunctionConfig) -> u8 {
    (0x20 + (if config.lines is Two { 8int } else { 0int }) + (if config.matrix is Dots5x10 {
        4int
    } else {
        0int
    })) as u8
}

/// A pulse on enable: high, held, low. The adapter holds the bus after it.
pub open spec fn strobe(bus: BusView) -> BusView {
    bus.enable(true).delay(PULSE_US).enable(false)
}

/// One nibble: on the data lines, then latched by a pulse.
pub open spec fn send_nibble(bus: BusView, nibble: u8) -> BusView {
    strobe(bus.data(nibble))
}

/// One byte: the high nibble, then the low nibble.
pub open spec fn send_byte(bus: BusView, byte: u8) -> BusView {
    send_nibble(send_nibble(bus, byte / 16), byte % 16)
}

/// One instruction byte, with the time it is given to execute.
pub open spec fn command(bus: BusView, byte: u8) -> BusView {
    send_byte(bus.rs(false), byte).delay(SETTLE_US)
}

/// One byte of character data, with the time it is given to execute.
pub open spec fn data_byte(bus: BusView, byte: u8) -> BusView {
    send_byte(bus.rs(true), byte).delay(SETTLE_US).delay(ADDRESS_US)
}

/// Clearing the display: the instruction and the long wait that it needs.
pub open spec fn clear(bus: BusView) -> BusView {
    command(bus, CLEAR_DISPLAY).delay(CLEAR_US)
}

/// Setting the three switches of the display.
pub open spec fn display_control(bus: BusView, state: DisplayState) -> BusView {
    command(bus, display_control_byte(state))
}

/// The wake-up of the initialization: the nibble that asks for the 8-bit
/// interface, latched three times with the waits in between, which brings
/// the controller to a known interface whatever it was doing; then the
/// nibble that asks for the 4-bit interface.
pub open spec fn wake(bus: BusView) -> BusView {
    let first = send_nibble(bus.rs(false), WAKE_NIBBLE).delay(WAKE_FIRST_US);
    let second = strobe(first).delay(WAKE_SECOND_US);
    let third = strobe(second).delay(SETTLE_US);
    send_nibble(third, FOUR_BIT_NIBBLE).delay(SETTLE_US)
}

/// The whole initialization: the wake-up, the function set with the line
/// count and the matrix, display off, display cleared, entry mode set.
pub open spec fn initialize(bus: BusView, config: FunctionConfig) -> BusView {
    let awake = wake(bus);
    let set = command(awake, function_set_byte(config));
    let off = display_control(set, DisplayState { power: false, cursor: false, blink: false });
    command(clear(off), ENTRY_RIGHT_NO_SHIFT)
}

/// The operations of a pulse on enable, with the hold behind it.
pub open spec fn strobe_ops(pins: LcdPinMap) -> Seq<BusOp> {
    seq![
        BusOp::Level { pin: pins.en, high: true },
        BusOp::DelayUs { micros: PULSE_US },
        BusOp::Level { pin: pins.en, high: false },
        BusOp::DelayUs { micros: SETTLE_US },
    ]
}

/// The operations that carry one byte across the bus: register select, the
/// high nibble on the data lines and a pulse, the low nibble and a pulse,
/// each pulse with its hold.
pub open spec fn byte_ops(pins: LcdPinMap, rs: bool, byte: u8) -> Seq<BusOp> {
    seq![BusOp::Level { pin: pins.rs, high: rs }] + pins.nibble_levels(byte / 16) + strobe_ops(pins)
        + pins.nibble_levels(byte % 16) + strobe_ops(pins)
}

} // verus!

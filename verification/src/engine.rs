//! The calls into the `lcd` crate, which implements the protocol engine.
//!
//! The engine drives the bus through the `lcd::Hardware` and `lcd::Delay`
//! impls of [`CharLCD`]. Those impls are verified; what is taken on trust
//! here is the order in which the engine calls them, and with what arguments.
//! [`CharLCD`] leaves `mode`, `can_read`, `apply` and `wait_address` at their
//! defaults, so the engine speaks the 4-bit protocol, waits by delays, and the
//! last two do nothing.
//!
//! The engine itself asks for no wait between the two nibbles of a byte. The
//! hold after every pulse is the adapter's own: it is recorded by the
//! verified impl of `enable`, not by the engine, and the contracts below say
//! nothing of it but through that impl.

use vstd::prelude::*;
use crate::char_lcd::CharLCD;
use crate::protocol;
use crate::protocol::{DisplayState, FunctionConfig, Lines, Matrix};

verus! {

/// `lcd::Display::init`. Calls `rs(false)`, then `data(3)` and a pulse,
/// `delay_us(4500)`, a pulse and `delay_us(150)`, a third pulse and
/// `delay_us(50)`, `data(2)`, a pulse and `delay_us(50)`. Then sends, each as
/// an instruction: the function set 0x20 with 0x08 for two lines and 0x04 for
/// the 5x10 matrix; display control 0x08 with all switches off; clear display
/// 0x01 with `delay_us(2000)` more; entry mode 0x06.
#[verifier::external_body]
pub(crate) fn initialize(bus: CharLCD, config: FunctionConfig) -> (out: CharLCD)
    ensures
        out@ == protocol::initialize(bus@, config),
{
    let line = match config.lines {
        Lines::One => lcd::FunctionLine::Line1,
        Lines::Two => lcd::FunctionLine::Line2,
    };
    let dots = match config.matrix {
        Matrix::Dots5x8 => lcd::FunctionDots::Dots5x8,
        Matrix::Dots5x10 => lcd::FunctionDots::Dots5x10,
    };
    let mut engine = lcd::Display::new(bus);
    engine.init(line, dots);
    engine.unwrap()
}

/// `lcd::Display::display`. Sends one instruction: 0x08 with 0x04 for display
/// on, 0x02 for cursor on and 0x01 for blink on. An instruction is the calls
/// `rs(false)`, `data` with the high nibble and a pulse, `data` with the low
/// nibble and a pulse, then `delay_us(50)`. A pulse is the calls
/// `enable(true)`, `delay_us(1)`, `enable(false)`.
#[verifier::external_body]
pub(crate) fn display_control(bus: CharLCD, state: DisplayState) -> (out: CharLCD)
    ensures
        out@ == protocol::display_control(bus@, state),
{
    let mode = if state.power { lcd::DisplayMode::DisplayOn } else { lcd::DisplayMode::DisplayOff };
    let cursor = if state.cursor { lcd::DisplayCursor::CursorOn } else { lcd::DisplayCursor::CursorOff };
    let blink = if state.blink { lcd::DisplayBlink::BlinkOn } else { lcd::DisplayBlink::BlinkOff };
    let mut engine = lcd::Display::new(bus);
    engine.display(mode, cursor, blink);
    engine.unwrap()
}

/// `lcd::Display::clear`. Sends the instruction 0x01 and calls
/// `delay_us(2000)` after it.
#[verifier::external_body]
pub(crate) fn clear(bus: CharLCD) -> (out: CharLCD)
    ensures
        out@ == protocol::clear(bus@),
{
    let mut engine = lcd::Display::new(bus);
    engine.clear();
    engine.unwrap()
}

/// `lcd::Display::write`. Sends one byte of character data: the calls
/// `rs(true)`, `data` with the high nibble and a pulse, `data` with the low
/// nibble and a pulse, then `delay_us(50)` and `delay_us(5)`.
#[verifier::external_body]
pub(crate) fn write(bus: CharLCD, byte: u8) -> (out: CharLCD)
    ensures
        out@ == protocol::data_byte(bus@, byte),
{
    let mut engine = lcd::Display::new(bus);
    engine.write(byte);
    engine.unwrap()
}

} // verus!

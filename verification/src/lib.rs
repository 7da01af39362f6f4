//! The logic of a small firmware that drives a character display over a
//! 4-bit bus, and one addressable RGB light, from a line-oriented command
//! console.
//!
//! The library decides and records; it touches no hardware. Its caller owns
//! the lines, the light and the serial console, and carries out what the
//! library hands it.
//!
//! - [`char_lcd`] is the bus adapter: six lines bound to their roles, and the
//!   writes and waits asked of them, recorded in order.
//! - [`protocol`] says what each operation of the display asks of the bus
//!   adapter. The protocol engine itself is the `lcd` crate, which drives the
//!   adapter.
//! - [`display`] is the display session: the engine on an adapter, with the
//!   state of the display that was asked for.
//! - [`receiver`] and [`controller`] model the far end of the bus, to state
//!   what the recorded operations achieve there.
//! - [`led`] holds the requests for the light, their colours, and the frame
//!   written for a colour.
//! - [`command`] reads a command from a line of input, and [`console`] says
//!   what each line does.

pub mod char_lcd;
pub mod command;
pub mod console;
pub mod controller;
pub mod display;
mod engine;
pub mod led;
pub mod protocol;
pub mod receiver;

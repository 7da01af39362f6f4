//! The command console: what each line of input does.
//!
//! The console decides; it does not act on the world. Handling a line leaves
//! the bus operations for the display recorded in the session and tells the
//! caller what else is due: a request to hand to the light, or one diagnostic
//! to report. Reading the lines, performing the operations, handing on the
//! request and writing the diagnostic are the caller's part.

use vstd::prelude::*;
use crate::char_lcd::{BusOp, BusView, CharLCD};
use crate::command::{parse, parse_spec, trimmed, Command, Parsed};
use crate::controller::Controller;
use crate::display::{
    controller_after, lemma_after_clear, lemma_after_display_control, lemma_after_initialize,
    write_sends_the_text, DisplaySession, SessionView,
};
use crate::led::LedState;
use crate::receiver::{byte_nibbles, text_nibbles, Receiver};
use crate::protocol;
use crate::protocol::{DisplayState, FunctionConfig, Lines, Matrix};

verus! {

/// What the light is asked for when the console starts.
pub const STARTUP_LIGHT: LedState = LedState::Off;

/// Microseconds to wait after a read that brought nothing for now.
pub const READ_RETRY_US: u32 = 100;

/// The configuration of the display: two lines of 5x8 characters.
pub open spec fn display_config() -> FunctionConfig {
    FunctionConfig { lines: Lines::Two, matrix: Matrix::Dots5x8 }
}

/// The switches when the display is ready for input: on, with a blinking
/// cursor.
pub open spec fn ready_switches() -> DisplayState {
    DisplayState { power: true, cursor: true, blink: true }
}

/// The switches when the display shows a text: on, without a cursor.
pub open spec fn showing_switches() -> DisplayState {
    DisplayState { power: true, cursor: false, blink: false }
}

/// What is due after a line was handled.
pub enum Due {
    /// Nothing: there was no input.
    Nothing,
    /// This request is to be handed to the light.
    Light(LedState),
    /// The bus operations that the display recorded are to be performed.
    Display,
    /// One diagnostic is to be reported: this is no command.
    Unknown(Seq<u8>),
}

/// What is due after a line was handled.
#[derive(Debug, PartialEq, Eq)]
pub enum Reaction {
    /// Nothing: there was no input.
    Nothing,
    /// This request is to be handed to the light.
    Light(LedState),
    /// The bus operations that the display recorded are to be performed.
    Display,
    /// One diagnostic is to be reported: this is no command.
    Unknown(Vec<u8>),
}

impl View for Reaction {
    type V = Due;

    open spec fn view(&self) -> Due {
        match *self {
            Reaction::Nothing => Due::Nothing,
            Reaction::Light(state) => Due::Light(state),
            Reaction::Display => Due::Display,
            Reaction::Unknown(word) => Due::Unknown(word@),
        }
    }
}

/// The session as the console starts it on a bus adapter: the display
/// initialized and ready for input.
pub open spec fn started(bus: BusView) -> SessionView {
    SessionView::begin(bus, display_config()).set_display_control(ready_switches())
}

/// What a line of input does to the session, and what is due after it.
///
/// No input does nothing. A request for the light leaves the display alone
/// and is due to the light. `clr` clears the display and makes it ready for
/// input again. `display:` switches the cursor off and writes the text. Any
/// other line leaves the display alone and is due as one diagnostic.
pub open spec fn react(session: SessionView, line: Seq<u8>) -> (SessionView, Due) {
    match parse_spec(line) {
        Parsed::Empty => (session, Due::Nothing),
        Parsed::Led(state) => (session, Due::Light(state)),
        Parsed::Clear => (session.clear().set_display_control(ready_switches()), Due::Display),
        Parsed::Display(text) => (
            session.set_display_control(showing_switches()).write(text),
            Due::Display,
        ),
        Parsed::Unknown(word) => (session, Due::Unknown(word)),
    }
}

/// Why a read of the input failed.
#[derive(Clone, Copy, Debug, PartialEq, Eq)]
pub enum ReadFault {
    /// Nothing is there yet.
    WouldBlock,
    /// Nothing came in time.
    TimedOut,
    /// The read was interrupted.
    Interrupted,
    /// Anything else.
    Other,
}

/// What to do about a read that failed.
#[derive(Clone, Copy, Debug, PartialEq, Eq)]
pub enum Recovery {
    /// Wait this many microseconds and go on.
    Wait(u32),
    /// Report the failure and go on.
    Report,
}

/// What to do about a read that failed: wait a little where nothing was
/// there for now, report anything else.
pub open spec fn recovery(fault: ReadFault) -> Recovery {
    match fault {
        ReadFault::WouldBlock | ReadFault::TimedOut | ReadFault::Interrupted => Recovery::Wait(
            READ_RETRY_US,
        ),
        ReadFault::Other => Recovery::Report,
    }
}

/// Decides what to do about a read that failed.
pub fn after_read_fault(fault: ReadFault) -> (todo: Recovery)
    ensures
        todo == recovery(fault),
{
    match fault {
        ReadFault::WouldBlock | ReadFault::TimedOut | ReadFault::Interrupted => Recovery::Wait(
            READ_RETRY_US,
        ),
        ReadFault::Other => Recovery::Report,
    }
}

/// The console: the display session and the commands that act on it.
pub struct Console {
    display: DisplaySession,
}

impl View for Console {
    type V = SessionView;

    closed spec fn view(&self) -> SessionView {
        self.display@
    }
}

impl Console {
    /// Starts the console on a bus adapter whose lines were claimed and
    /// reset: initializes the display for two lines of 5x8 characters and
    /// makes it ready for input.
    pub fn start(bus: CharLCD) -> (console: Console)
        ensures
            console@ == started(bus@),
    {
        let mut display = DisplaySession::begin(bus, Lines::Two, Matrix::Dots5x8);
        display.set_display_control(true, true, true);
        Console { display }
    }

    /// Handles one line of input, as it was read.
    ///
    /// A line that is no command changes nothing and is due as exactly one
    /// diagnostic, which carries the line without the white space around it.
    pub fn handle_line(&mut self, line: &[u8]) -> (reaction: Reaction)
        ensures
            (final(self)@, reaction@) == react(old(self)@, line@),
            parse_spec(line@) is Unknown ==> final(self)@ == old(self)@ && reaction@
                == Due::Unknown(trimmed(line@)),
    {
        match parse(line) {
            Command::Empty => Reaction::Nothing,
            Command::Led(state) => Reaction::Light(state),
            Command::Clear => {
                self.display.clear();
                self.display.set_display_control(true, true, true);
                Reaction::Display
            },
            Command::Display(text) => {
                self.display.set_display_control(true, false, false);
                self.display.write(text.as_slice());
                Reaction::Display
            },
            Command::Unknown(word) => Reaction::Unknown(word),
        }
    }

    /// The switches of the display as last asked for.
    pub fn display_state(&self) -> (state: DisplayState)
        ensures
            state == self@.state,
    {
        self.display.state()
    }

    /// Hands out the bus operations recorded so far, oldest first, for the
    /// owner of the lines to perform.
    pub fn take_ops(&mut self) -> (ops: Vec<BusOp>)
        ensures
            ops@ == old(self)@.bus.ops,
            final(self)@ == old(self)@.drained(),
    {
        self.display.take_ops()
    }
}

/// Nothing reaches the controller before it is initialized.
///
/// Whatever the controller was doing when the console started, and whatever
/// the lines showed, starting the console leaves it initialized for two lines
/// of 5x8 characters, in step with the console, and with the display ready
/// for input. If the controller had settled before, as it has after the
/// reset of the lines, no pulse was hurried.
pub proof fn start_initializes_the_controller(
    bus: BusView,
    receiver: Receiver,
    controller: Controller,
)
    requires
        bus.pins.distinct(),
        receiver.wf(),
        controller.wf(),
    ensures
        started(bus).bus.pins == bus.pins,
        started(bus).state == ready_switches(),
        started(bus).config == display_config(),
        controller_after(controller, receiver, started(bus)) == (Controller {
            display: ready_switches(),
            ..Controller::initialized(display_config(), controller.low_lines)
        }),
        controller_after(controller, receiver, started(bus)).in_step(),
        receiver.sees(started(bus).bus).settled(),
        receiver.sees(bus).settled() ==> receiver.sees(started(bus).bus).hurried == receiver.sees(
            bus,
        ).hurried,
{
    let begun = SessionView { bus, state: SessionView::dark(), config: display_config() };
    lemma_after_initialize(begun, display_config(), receiver, controller);
    lemma_after_display_control(
        SessionView::begin(bus, display_config()),
        ready_switches(),
        receiver,
        controller,
    );
}

/// The controller stays in step with the console.
///
/// From any moment at which the controller is in step with the console,
/// handling a line, whatever the line says, leaves the controller in step,
/// and the binding of the lines and the configuration as they were. If the
/// controller had settled before the line, it has settled after it, and no
/// pulse was hurried.
pub proof fn handling_a_line_keeps_in_step(
    session: SessionView,
    line: Seq<u8>,
    receiver: Receiver,
    controller: Controller,
)
    requires
        session.bus.pins.distinct(),
        controller_after(controller, receiver, session).in_step(),
    ensures
        react(session, line).0.bus.pins == session.bus.pins,
        react(session, line).0.config == session.config,
        controller_after(controller, receiver, react(session, line).0).in_step(),
        controller_after(controller, receiver, react(session, line).0).config
            == controller_after(controller, receiver, session).config,
        receiver.sees(session.bus).settled() ==> receiver.sees(react(session, line).0.bus).settled()
            && receiver.sees(react(session, line).0.bus).hurried == receiver.sees(
            session.bus,
        ).hurried,
{
    match parse_spec(line) {
        Parsed::Clear => {
            lemma_after_clear(session, receiver, controller);
            lemma_after_display_control(session.clear(), ready_switches(), receiver, controller);
        },
        Parsed::Display(text) => {
            lemma_after_display_control(session, showing_switches(), receiver, controller);
            write_sends_the_text(
                session.set_display_control(showing_switches()),
                text,
                receiver,
                controller,
            );
        },
        _ => {},
    }
}

/// After `clr`, a `display:` command shows exactly its text.
///
/// Handling a line that says `clr` and then a line that says `display:` with
/// a text sends, for the second line, one instruction, the one that switches
/// the cursor off, and after it two nibbles of character data for each byte
/// of the text, in order, with nothing in between. A controller that was in
/// step with the session shows the text and nothing else, with the display
/// on and the cursor off.
pub proof fn display_after_clear_shows_the_text(
    session: SessionView,
    clear_line: Seq<u8>,
    display_line: Seq<u8>,
    text: Seq<u8>,
    receiver: Receiver,
    controller: Controller,
)
    requires
        session.bus.pins.distinct(),
        controller_after(controller, receiver, session).in_step(),
        parse_spec(clear_line) == Parsed::Clear,
        parse_spec(display_line) == Parsed::Display(text),
    ensures
        ({
            let cleared = react(session, clear_line).0;
            let shown = react(cleared, display_line).0;
            &&& react(session, clear_line).1 == Due::Display
            &&& react(cleared, display_line).1 == Due::Display
            &&& cleared.state == ready_switches()
            &&& shown.state == showing_switches()
            &&& receiver.sees(shown.bus).latched == receiver.sees(cleared.bus).latched + byte_nibbles(
                false,
                protocol::display_control_byte(showing_switches()),
            ) + text_nibbles(text)
            &&& controller_after(controller, receiver, cleared).text == Seq::<u8>::empty()
            &&& controller_after(controller, receiver, cleared).display == ready_switches()
            &&& controller_after(controller, receiver, shown).text == text
            &&& controller_after(controller, receiver, shown).display == showing_switches()
        }),
{
    lemma_after_clear(session, receiver, controller);
    lemma_after_display_control(session.clear(), ready_switches(), receiver, controller);
    let cleared = session.clear().set_display_control(ready_switches());
    lemma_after_display_control(cleared, showing_switches(), receiver, controller);
    let dark = cleared.set_display_control(showing_switches());
    write_sends_the_text(dark, text, receiver, controller);
    assert(Seq::<u8>::empty() + text =~= text);
}

} // verus!

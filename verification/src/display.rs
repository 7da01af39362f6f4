//! The display session: the protocol engine on a bus adapter, together with
//! the state of the display that the caller has asked for.
//!
//! A session is made by initializing the controller, so nothing else is ever
//! sent before the initialization. The controller is never read: the session
//! is the only memory of what was asked of it.

use vstd::prelude::*;
use crate::char_lcd::{BusOp, BusView, CharLCD, LcdPinMap, SETTLE_US};
use crate::controller::{
    lemma_hear_clear, lemma_hear_concat, lemma_hear_display_control, lemma_hear_initialize,
    lemma_hear_keeps_wf, lemma_hear_text, Controller, EntryMode,
};
use crate::engine;
use crate::receiver::{
    byte_nibbles, clear_us, command_us, data_byte_us, initialize_nibbles, initialize_us,
    lemma_byte_summary, lemma_initialize_summary, lemma_run_keeps_wf, lemma_sees_clear,
    lemma_sees_command, lemma_sees_data_byte, lemma_sees_initialize, lemma_text_nibbles,
    lemma_write_summary, text_nibbles, Latched, Receiver,
};
use crate::protocol;
use crate::protocol::{DisplayState, FunctionConfig};

verus! {

/// What a session is, to its callers.
pub struct SessionView {
    /// The bus adapter, with what was sent and not yet handed out.
    pub bus: BusView,
    /// The switches as last asked for.
    pub state: DisplayState,
    /// The configuration that the controller was last initialized with.
    pub config: FunctionConfig,
}

impl SessionView {
    /// The switches as the initialization leaves them: all off.
    pub open spec fn dark() -> DisplayState {
        DisplayState { power: false, cursor: false, blink: false }
    }

    /// A session begun on `bus`.
    pub open spec fn begin(bus: BusView, config: FunctionConfig) -> SessionView {
        SessionView { bus: protocol::initialize(bus, config), state: Self::dark(), config }
    }

    /// The session after the controller was initialized again.
    pub open spec fn initialize(self, config: FunctionConfig) -> SessionView {
        Self::begin(self.bus, config)
    }

    /// The session after the switches were set.
    pub open spec fn set_display_control(self, state: DisplayState) -> SessionView {
        SessionView { bus: protocol::display_control(self.bus, state), state, config: self.config }
    }

    /// The session after the display was cleared. The switches stay as they
    /// were last asked for.
    pub open spec fn clear(self) -> SessionView {
        SessionView { bus: protocol::clear(self.bus), state: self.state, config: self.config }
    }

    /// The session after one byte of character data was sent.
    pub open spec fn send_data(self, byte: u8) -> SessionView {
        SessionView { bus: protocol::data_byte(self.bus, byte), state: self.state, config: self.config }
    }

    /// The session after a text was written: its bytes sent as character
    /// data, one after the other, first to last.
    pub open spec fn write(self, text: Seq<u8>) -> SessionView
        decreases text.len(),
    {
        if text.len() == 0 {
            self
        } else {
            self.write(text.drop_last()).send_data(text.last())
        }
    }

    /// The session after the recorded operations were handed out.
    pub open spec fn drained(self) -> SessionView {
        SessionView { bus: BusView::idle(self.bus.pins), state: self.state, config: self.config }
    }
}

/// The protocol engine on a bus adapter, with the state asked for.
pub struct DisplaySession {
    bus: CharLCD,
    state: DisplayState,
    config: FunctionConfig,
}

impl View for DisplaySession {
    type V = SessionView;

    closed spec fn view(&self) -> SessionView {
        SessionView { bus: self.bus@, state: self.state, config: self.config }
    }
}

impl DisplaySession {
    /// Takes the bus adapter and initializes the controller.
    pub fn begin(bus: CharLCD, lines: protocol::Lines, matrix: protocol::Matrix) -> (session:
        DisplaySession)
        ensures
            session@ == SessionView::begin(bus@, (FunctionConfig { lines, matrix })),
    {
        let config = FunctionConfig { lines, matrix };
        let bus = engine::initialize(bus, config);
        DisplaySession {
            bus,
            state: DisplayState { power: false, cursor: false, blink: false },
            config,
        }
    }

    /// Runs the whole initialization again, with its full delays, and leaves
    /// all three switches off.
    pub fn initialize(&mut self, lines: protocol::Lines, matrix: protocol::Matrix)
        ensures
            final(self)@ == old(self)@.initialize((FunctionConfig { lines, matrix })),
    {
        let config = FunctionConfig { lines, matrix };
        let mut bus = self.bus.idle_twin();
        core::mem::swap(&mut self.bus, &mut bus);
        self.bus = engine::initialize(bus, config);
        self.state = DisplayState { power: false, cursor: false, blink: false };
        self.config = config;
    }

    /// Sends the display control instruction built from the three switches,
    /// and remembers them. Switches not mentioned do not exist: the three
    /// given are the whole state.
    pub fn set_display_control(&mut self, power: bool, cursor: bool, blink: bool)
        ensures
            final(self)@ == old(self)@.set_display_control((DisplayState { power, cursor, blink })),
    {
        let state = DisplayState { power, cursor, blink };
        let mut bus = self.bus.idle_twin();
        core::mem::swap(&mut self.bus, &mut bus);
        self.bus = engine::display_control(bus, state);
        self.state = state;
    }

    /// Clears the display and waits the long time that this takes. The
    /// switches are neither sent nor changed.
    pub fn clear(&mut self)
        ensures
            final(self)@ == old(self)@.clear(),
    {
        let mut bus = self.bus.idle_twin();
        core::mem::swap(&mut self.bus, &mut bus);
        self.bus = engine::clear(bus);
    }

    /// Sends one byte of character data.
    pub fn send_data(&mut self, byte: u8)
        ensures
            final(self)@ == old(self)@.send_data(byte),
    {
        let mut bus = self.bus.idle_twin();
        core::mem::swap(&mut self.bus, &mut bus);
        self.bus = engine::write(bus, byte);
    }

    /// Writes a text: each byte is sent as character data, in order. Nothing
    /// wraps or stops at the width of the display.
    pub fn write(&mut self, text: &[u8])
        ensures
            final(self)@ == old(self)@.write(text@),
    {
        let mut sent: usize = 0;
        while sent < text.len()
            invariant
                sent <= text.len(),
                self@ == old(self)@.write(text@.take(sent as int)),
            decreases text.len() - sent,
        {
            self.send_data(text[sent]);
            proof {
                let done = text@.take(sent + 1);
                assert(done.drop_last() =~= text@.take(sent as int));
                assert(done.last() == text@[sent as int]);
            }
            sent = sent + 1;
        }
        proof {
            assert(text@.take(sent as int) =~= text@);
        }
    }

    /// The switches as last asked for.
    pub fn state(&self) -> (state: DisplayState)
        ensures
            state == self@.state,
    {
        self.state
    }

    /// The configuration that the controller was last initialized with.
    pub fn config(&self) -> (config: FunctionConfig)
        ensures
            config == self@.config,
    {
        self.config
    }

    /// The binding of the lines of the bus adapter.
    pub fn pins(&self) -> (pins: LcdPinMap)
        ensures
            pins == self@.bus.pins,
    {
        self.bus.pins()
    }

    /// Hands out the bus operations recorded so far, oldest first, for the
    /// owner of the lines to perform.
    pub fn take_ops(&mut self) -> (ops: Vec<BusOp>)
        ensures
            ops@ == old(self)@.bus.ops,
            final(self)@ == old(self)@.drained(),
    {
        self.bus.take_ops()
    }
}

/// What the controller has become once everything that the session has
/// recorded was performed: `controller` is the controller, and `receiver` its
/// receiver, before any of it.
pub open spec fn controller_after(controller: Controller, receiver: Receiver, session: SessionView)
    -> Controller {
    controller.hear_all(receiver.sees(session.bus).latched)
}

/// Writing a text never touches the binding of the lines, the switches or
/// the configuration.
pub proof fn lemma_write_keeps(session: SessionView, text: Seq<u8>)
    ensures
        session.write(text).bus.pins == session.bus.pins,
        session.write(text).state == session.state,
        session.write(text).config == session.config,
    decreases text.len(),
{
    if text.len() > 0 {
        lemma_write_keeps(session, text.drop_last());
    }
}

/// What the receiver makes of a text being written.
pub proof fn lemma_sees_write(receiver: Receiver, session: SessionView, text: Seq<u8>)
    requires
        session.bus.pins.distinct(),
    ensures
        receiver.sees(session.write(text).bus) == receiver.sees(session.bus).write(text),
    decreases text.len(),
{
    if text.len() > 0 {
        lemma_sees_write(receiver, session, text.drop_last());
        lemma_write_keeps(session, text.drop_last());
        lemma_sees_data_byte(receiver, session.write(text.drop_last()).bus, text.last());
    }
}

/// One initialization, from any state of the session, the receiver and the
/// controller.
pub proof fn lemma_after_initialize(
    session: SessionView,
    config: FunctionConfig,
    receiver: Receiver,
    controller: Controller,
)
    requires
        session.bus.pins.distinct(),
        receiver.wf(),
        controller.wf(),
    ensures
        session.initialize(config).bus.pins == session.bus.pins,
        receiver.sees(session.initialize(config).bus).latched == receiver.sees(session.bus).latched
            + initialize_nibbles(config),
        controller_after(controller, receiver, session.initialize(config)) == Controller::initialized(
            config,
            controller.low_lines,
        ),
        receiver.sees(session.initialize(config).bus).waited == receiver.sees(session.bus).waited
            + initialize_us(),
        receiver.sees(session.initialize(config).bus).settled(),
        receiver.sees(session.initialize(config).bus).hurried == (receiver.sees(
            session.bus,
        ).hurried || !receiver.sees(session.bus).settled()),
{
    let before = receiver.sees(session.bus);
    lemma_sees_initialize(receiver, session.bus, config);
    lemma_initialize_summary(before, config);
    lemma_run_keeps_wf(receiver, session.bus.pins, session.bus.ops);
    lemma_hear_keeps_wf(controller, before.latched);
    lemma_hear_concat(controller, before.latched, initialize_nibbles(config));
    lemma_hear_initialize(controller.hear_all(before.latched), config);
}

/// Setting the switches, seen from a controller that is in step with the
/// session: one instruction arrives, the switches are as asked for, nothing
/// else about the controller changes.
pub proof fn lemma_after_display_control(
    session: SessionView,
    state: DisplayState,
    receiver: Receiver,
    controller: Controller,
)
    requires
        session.bus.pins.distinct(),
        controller_after(controller, receiver, session).in_step(),
    ensures
        session.set_display_control(state).bus.pins == session.bus.pins,
        receiver.sees(session.set_display_control(state).bus).latched == receiver.sees(
            session.bus,
        ).latched + byte_nibbles(false, protocol::display_control_byte(state)),
        controller_after(controller, receiver, session.set_display_control(state)) == (Controller {
            display: state,
            ..controller_after(controller, receiver, session)
        }),
        receiver.sees(session.set_display_control(state).bus).waited == receiver.sees(
            session.bus,
        ).waited + command_us(),
        receiver.sees(session.set_display_control(state).bus).settled(),
        receiver.sees(session.set_display_control(state).bus).hurried == (receiver.sees(
            session.bus,
        ).hurried || !receiver.sees(session.bus).settled()),
{
    let before = receiver.sees(session.bus);
    let sent = byte_nibbles(false, protocol::display_control_byte(state));
    lemma_sees_command(receiver, session.bus, protocol::display_control_byte(state));
    lemma_byte_summary(before, false, protocol::display_control_byte(state));
    lemma_hear_concat(controller, before.latched, sent);
    lemma_hear_display_control(controller.hear_all(before.latched), state);
}

/// Clearing the display, seen from a controller that is in step with the
/// session: one instruction arrives, the text is gone and character data goes
/// to the display again; the switches stay as they were.
pub proof fn lemma_after_clear(session: SessionView, receiver: Receiver, controller: Controller)
    requires
        session.bus.pins.distinct(),
        controller_after(controller, receiver, session).in_step(),
    ensures
        session.clear().bus.pins == session.bus.pins,
        receiver.sees(session.clear().bus).latched == receiver.sees(session.bus).latched + byte_nibbles(
            false,
            protocol::CLEAR_DISPLAY,
        ),
        controller_after(controller, receiver, session.clear()) == (Controller {
            text: Seq::empty(),
            character_ram: false,
            entry: EntryMode {
                increment: true,
                shift: controller_after(controller, receiver, session).entry.shift,
            },
            ..controller_after(controller, receiver, session)
        }),
        receiver.sees(session.clear().bus).waited == receiver.sees(session.bus).waited + clear_us(),
        receiver.sees(session.clear().bus).settled(),
        receiver.sees(session.clear().bus).hurried == (receiver.sees(session.bus).hurried
            || !receiver.sees(session.bus).settled()),
{
    let before = receiver.sees(session.bus);
    let sent = byte_nibbles(false, protocol::CLEAR_DISPLAY);
    lemma_sees_clear(receiver, session.bus);
    lemma_byte_summary(before, false, protocol::CLEAR_DISPLAY);
    lemma_hear_concat(controller, before.latched, sent);
    lemma_hear_clear(controller.hear_all(before.latched));
}

/// Initializing is idempotent in effect and not in time.
///
/// Whatever the controller was doing before, and whatever the lines showed,
/// an initialization leaves the controller in one state that depends on the
/// configuration alone: the four-bit interface latched, the configuration
/// set, all three switches off, the display cleared. So a second
/// initialization leaves the controller, and what the session remembers,
/// exactly as the first did. But each one sends all its nibbles and takes
/// the whole time of an initialization again.
pub proof fn initialize_is_idempotent_in_effect(
    session: SessionView,
    config: FunctionConfig,
    receiver: Receiver,
    controller: Controller,
)
    requires
        session.bus.pins.distinct(),
        receiver.wf(),
        controller.wf(),
    ensures
        ({
            let once = session.initialize(config);
            let twice = once.initialize(config);
            let settled = Controller::initialized(config, controller.low_lines);
            &&& once.state == SessionView::dark() && once.config == config
            &&& twice.state == once.state && twice.config == once.config
            &&& controller_after(controller, receiver, once) == settled
            &&& controller_after(controller, receiver, twice) == settled
            &&& receiver.sees(twice.bus).latched == receiver.sees(once.bus).latched + initialize_nibbles(
                config,
            )
            &&& receiver.sees(once.bus).waited == receiver.sees(session.bus).waited + initialize_us()
            &&& receiver.sees(twice.bus).waited == receiver.sees(once.bus).waited + initialize_us()
            &&& initialize_us() == 7562
        }),
{
    lemma_after_initialize(session, config, receiver, controller);
    lemma_after_initialize(session.initialize(config), config, receiver, controller);
}

/// Clearing the display leaves the switches alone; setting them after it
/// leaves them as set.
///
/// What the session remembers of the switches is not changed by clearing
/// the display, and is exactly what was asked for once they are set after
/// it. A controller that is in step with the session follows: clearing
/// empties its text and leaves its switches, and setting the switches after
/// it leaves them as asked for.
pub proof fn clear_then_display_control(
    session: SessionView,
    state: DisplayState,
    receiver: Receiver,
    controller: Controller,
)
    requires
        session.bus.pins.distinct(),
        controller_after(controller, receiver, session).in_step(),
    ensures
        session.clear().state == session.state,
        session.clear().config == session.config,
        session.clear().set_display_control(state).state == state,
        session.clear().set_display_control(state).config == session.config,
        controller_after(controller, receiver, session.clear()).display == controller_after(
            controller,
            receiver,
            session,
        ).display,
        controller_after(controller, receiver, session.clear()).text == Seq::<u8>::empty(),
        controller_after(controller, receiver, session.clear().set_display_control(state)).display
            == state,
        controller_after(controller, receiver, session.clear().set_display_control(state)).text
            == Seq::<u8>::empty(),
{
    lemma_after_clear(session, receiver, controller);
    lemma_after_display_control(session.clear(), state, receiver, controller);
}

/// A text arrives as it was written.
///
/// Writing a text sends two nibbles for each of its bytes and nothing else,
/// all of them as character data, the high nibble of a byte before its low
/// nibble, in the order of the text. A controller that is in step with the
/// session stays in step; if it is writing to the display, it has the text
/// added to what it shows, byte for byte; nothing else about it changes. The
/// time taken is that of one byte of character data for each byte of the
/// text.
pub proof fn write_sends_the_text(
    session: SessionView,
    text: Seq<u8>,
    receiver: Receiver,
    controller: Controller,
)
    requires
        session.bus.pins.distinct(),
        controller_after(controller, receiver, session).in_step(),
    ensures
        session.write(text).bus.pins == session.bus.pins,
        session.write(text).state == session.state,
        session.write(text).config == session.config,
        receiver.sees(session.write(text).bus).latched == receiver.sees(session.bus).latched
            + text_nibbles(text),
        text_nibbles(text).len() == 2 * text.len(),
        forall|i: int|
            0 <= i < text.len() ==> #[trigger] text_nibbles(text)[2 * i] == (Latched {
                rs: true,
                value: text[i] as int / 16,
            }) && text_nibbles(text)[2 * i + 1] == (Latched {
                rs: true,
                value: text[i] as int % 16,
            }),
        controller_after(controller, receiver, session.write(text)) == (Controller {
            text: if controller_after(controller, receiver, session).character_ram {
                controller_after(controller, receiver, session).text
            } else {
                controller_after(controller, receiver, session).text + text
            },
            ..controller_after(controller, receiver, session)
        }),
        receiver.sees(session.write(text).bus).waited == receiver.sees(session.bus).waited + text.len()
            * data_byte_us(),
        receiver.sees(session.bus).settled() ==> receiver.sees(session.write(text).bus).settled()
            && receiver.sees(session.write(text).bus).hurried == receiver.sees(
            session.bus,
        ).hurried,
{
    let before = receiver.sees(session.bus);
    lemma_write_keeps(session, text);
    lemma_sees_write(receiver, session, text);
    lemma_write_summary(before, text);
    lemma_text_nibbles(text);
    lemma_hear_concat(controller, before.latched, text_nibbles(text));
    lemma_hear_text(controller.hear_all(before.latched), text);
}

/// Enable never rises before the controller has settled.
///
/// The bus is held, for the time that the controller needs to settle, after
/// every fall of enable: after the high nibble of a byte as well as after its
/// low nibble. So if the controller had settled when an operation of the
/// session began, as it has after the reset of the lines and after every
/// operation of the session, no pulse of the operation is hurried, and the
/// controller has settled again when the operation ends. After clearing the
/// display it has been left alone for longer than after any other
/// instruction.
pub proof fn every_pulse_waits_for_the_controller_to_settle(
    session: SessionView,
    config: FunctionConfig,
    state: DisplayState,
    byte: u8,
    text: Seq<u8>,
    receiver: Receiver,
)
    requires
        session.bus.pins.distinct(),
        receiver.sees(session.bus).settled(),
    ensures
        receiver.sees(session.initialize(config).bus).settled(),
        receiver.sees(session.initialize(config).bus).hurried == receiver.sees(
            session.bus,
        ).hurried,
        receiver.sees(session.set_display_control(state).bus).settled(),
        receiver.sees(session.set_display_control(state).bus).hurried == receiver.sees(
            session.bus,
        ).hurried,
        receiver.sees(session.clear().bus).settled(),
        receiver.sees(session.clear().bus).hurried == receiver.sees(session.bus).hurried,
        receiver.sees(session.send_data(byte).bus).settled(),
        receiver.sees(session.send_data(byte).bus).hurried == receiver.sees(session.bus).hurried,
        receiver.sees(session.write(text).bus).settled(),
        receiver.sees(session.write(text).bus).hurried == receiver.sees(session.bus).hurried,
        receiver.sees(session.set_display_control(state).bus).rested == 2 * SETTLE_US,
        receiver.sees(session.send_data(byte).bus).rested == 2 * SETTLE_US + protocol::ADDRESS_US,
        receiver.sees(session.clear().bus).rested == 2 * SETTLE_US + protocol::CLEAR_US,
        receiver.sees(session.clear().bus).rested > receiver.sees(
            session.set_display_control(state).bus,
        ).rested,
{
    let before = receiver.sees(session.bus);
    lemma_sees_initialize(receiver, session.bus, config);
    lemma_initialize_summary(before, config);
    lemma_sees_command(receiver, session.bus, protocol::display_control_byte(state));
    lemma_byte_summary(before, false, protocol::display_control_byte(state));
    lemma_sees_clear(receiver, session.bus);
    lemma_byte_summary(before, false, protocol::CLEAR_DISPLAY);
    lemma_sees_data_byte(receiver, session.bus, byte);
    lemma_byte_summary(before, true, byte);
    lemma_sees_write(receiver, session, text);
    lemma_write_summary(before, text);
}

} // verus!

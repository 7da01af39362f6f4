//! The far end of the bus: what the input stage of the display controller
//! makes of the operations performed on the six lines.
//!
//! The controller latches what is on the data lines, together with register
//! select, whenever enable falls, and needs time to settle before enable
//! rises again. Nothing else about the lines matters to it. Time is counted
//! only as the sum of the waits that were asked for.

use vstd::prelude::*;
use crate::char_lcd::{nibble_bit, BusOp, BusView, LcdPinMap, SETTLE_US};
use crate::protocol;
use crate::protocol::{DisplayState, FunctionConfig};

verus! {

/// The levels on the six lines.
pub struct Levels {
    pub rs: bool,
    pub en: bool,
    pub d4: bool,
    pub d5: bool,
    pub d6: bool,
    pub d7: bool,
}

/// One nibble as the controller latched it: the level of register select at
/// that moment, and the value on the data lines.
pub struct Latched {
    pub rs: bool,
    pub value: int,
}

/// The input stage of the controller.
pub struct Receiver {
    /// The levels it sees now.
    pub levels: Levels,
    /// Every nibble it has latched, oldest first.
    pub latched: Seq<Latched>,
    /// The microseconds that were waited, all waits added up.
    pub waited: nat,
    /// The microseconds that were waited since enable last fell.
    pub rested: nat,
    /// Enable has risen, at least once, before the controller had settled.
    pub hurried: bool,
}

/// Every one of them is a nibble: a value from 0 to 15.
pub open spec fn all_nibbles(nibbles: Seq<Latched>) -> bool {
    forall|i: int| 0 <= i < nibbles.len() ==> 0 <= (#[trigger] nibbles[i]).value < 16
}

/// The two nibbles of a byte, as they are latched: high, then low.
pub open spec fn byte_nibbles(rs: bool, byte: u8) -> Seq<Latched> {
    seq![Latched { rs, value: byte as int / 16 }, Latched { rs, value: byte as int % 16 }]
}

/// The four nibbles of the wake-up, as they are latched.
pub open spec fn wake_nibbles() -> Seq<Latched> {
    seq![
        Latched { rs: false, value: 3 },
        Latched { rs: false, value: 3 },
        Latched { rs: false, value: 3 },
        Latched { rs: false, value: 2 },
    ]
}

/// All the nibbles of an initialization, as they are latched.
pub open spec fn initialize_nibbles(config: FunctionConfig) -> Seq<Latched> {
    wake_nibbles() + byte_nibbles(false, protocol::function_set_byte(config)) + byte_nibbles(
        false,
        protocol::display_control_byte(DisplayState { power: false, cursor: false, blink: false }),
    ) + byte_nibbles(false, protocol::CLEAR_DISPLAY) + byte_nibbles(
        false,
        protocol::ENTRY_RIGHT_NO_SHIFT,
    )
}

/// The nibbles of a text sent as character data, as they are latched.
pub open spec fn text_nibbles(text: Seq<u8>) -> Seq<Latched>
    decreases text.len(),
{
    if text.len() == 0 {
        Seq::empty()
    } else {
        text_nibbles(text.drop_last()) + byte_nibbles(true, text.last())
    }
}

/// Microseconds that a pulse takes, with the hold behind it.
pub open spec fn pulse_us() -> nat {
    (protocol::PULSE_US + SETTLE_US) as nat
}

/// Microseconds that an instruction takes: two pulses and the time to
/// execute.
pub open spec fn command_us() -> nat {
    2 * pulse_us() + SETTLE_US as nat
}

/// Microseconds that a byte of character data takes.
pub open spec fn data_byte_us() -> nat {
    command_us() + protocol::ADDRESS_US as nat
}

/// Microseconds that clearing the display takes.
pub open spec fn clear_us() -> nat {
    command_us() + protocol::CLEAR_US as nat
}

/// Microseconds that the wake-up takes: four pulses and the four waits.
pub open spec fn wake_us() -> nat {
    4 * pulse_us() + (protocol::WAKE_FIRST_US + protocol::WAKE_SECOND_US + 2 * SETTLE_US) as nat
}

/// Microseconds that an initialization takes: the wake-up, three
/// instructions, and clearing the display.
pub open spec fn initialize_us() -> nat {
    wake_us() + 3 * command_us() + clear_us()
}

impl Levels {
    /// The levels after the line with number `pin` was driven.
    pub open spec fn drive(self, pins: LcdPinMap, pin: u8, high: bool) -> Levels {
        Levels {
            rs: if pin == pins.rs { high } else { self.rs },
            en: if pin == pins.en { high } else { self.en },
            d4: if pin == pins.d4 { high } else { self.d4 },
            d5: if pin == pins.d5 { high } else { self.d5 },
            d6: if pin == pins.d6 { high } else { self.d6 },
            d7: if pin == pins.d7 { high } else { self.d7 },
        }
    }

    /// The value on the data lines: D4 is bit 0, D7 is bit 3.
    pub open spec fn nibble(self) -> int {
        (if self.d4 { 1int } else { 0int }) + (if self.d5 { 2int } else { 0int }) + (if self.d6 {
            4int
        } else {
            0int
        }) + (if self.d7 { 8int } else { 0int })
    }

    /// The levels with register select at `rs`.
    pub open spec fn select(self, rs: bool) -> Levels {
        Levels { rs, ..self }
    }

    /// The levels with the low four bits of `nibble` on the data lines.
    pub open spec fn with_data(self, nibble: u8) -> Levels {
        Levels {
            d4: nibble_bit(nibble, 0),
            d5: nibble_bit(nibble, 1),
            d6: nibble_bit(nibble, 2),
            d7: nibble_bit(nibble, 3),
            ..self
        }
    }

    /// The levels with enable low.
    pub open spec fn rest(self) -> Levels {
        Levels { en: false, ..self }
    }

    /// The levels after a byte crossed the bus: register select as given,
    /// enable low, the low nibble of the byte still on the data lines.
    pub open spec fn after_byte(self, rs: bool, byte: u8) -> Levels {
        self.select(rs).with_data(byte % 16).rest()
    }
}

impl Receiver {
    /// The receiver after one bus operation was performed. A nibble is
    /// latched when enable falls, and the controller starts to settle. When
    /// enable rises before it has settled, the pulse is hurried. A delay only
    /// takes time.
    pub open spec fn step(self, pins: LcdPinMap, op: BusOp) -> Receiver {
        match op {
            BusOp::Level { pin, high } => {
                let levels = self.levels.drive(pins, pin, high);
                if self.levels.en && !levels.en {
                    Receiver {
                        levels,
                        latched: self.latched.push(
                            Latched { rs: levels.rs, value: levels.nibble() },
                        ),
                        rested: 0,
                        ..self
                    }
                } else if !self.levels.en && levels.en {
                    Receiver { levels, hurried: self.hurried || self.rested < SETTLE_US, ..self }
                } else {
                    Receiver { levels, ..self }
                }
            },
            BusOp::DelayUs { micros } => self.wait(micros),
        }
    }

    /// The receiver after the operations were performed, first to last.
    pub open spec fn run(self, pins: LcdPinMap, ops: Seq<BusOp>) -> Receiver
        decreases ops.len(),
    {
        if ops.len() == 0 {
            self
        } else {
            self.run(pins, ops.drop_last()).step(pins, ops.last())
        }
    }

    /// The receiver after all that the bus adapter has recorded was performed.
    pub open spec fn sees(self, bus: BusView) -> Receiver {
        self.run(bus.pins, bus.ops)
    }

    /// Every nibble that the receiver has latched is a nibble.
    pub open spec fn wf(self) -> bool {
        all_nibbles(self.latched)
    }

    /// The receiver after register select was set.
    pub open spec fn select(self, rs: bool) -> Receiver {
        Receiver { levels: self.levels.select(rs), ..self }
    }

    /// The receiver after the data lines were set.
    pub open spec fn with_data(self, nibble: u8) -> Receiver {
        Receiver { levels: self.levels.with_data(nibble), ..self }
    }

    /// The receiver after a wait.
    pub open spec fn wait(self, micros: u32) -> Receiver {
        Receiver {
            waited: self.waited + micros as nat,
            rested: self.rested + micros as nat,
            ..self
        }
    }

    /// Enable may rise: it is high already, or the controller has settled
    /// since it fell.
    pub open spec fn settled(self) -> bool {
        self.levels.en || self.rested >= SETTLE_US
    }

    /// The receiver after enable was set high.
    pub open spec fn rise(self) -> Receiver {
        Receiver {
            levels: Levels { en: true, ..self.levels },
            hurried: self.hurried || !self.settled(),
            ..self
        }
    }

    /// The receiver after enable was set low.
    pub open spec fn fall(self) -> Receiver {
        if self.levels.en {
            Receiver {
                levels: self.levels.rest(),
                latched: self.latched.push(
                    Latched { rs: self.levels.rs, value: self.levels.nibble() },
                ),
                rested: 0,
                ..self
            }
        } else {
            self
        }
    }

    /// The receiver after a pulse on enable and the hold behind it: what is
    /// on the lines is latched, once, enable is low, and the controller has
    /// settled.
    pub open spec fn pulse(self) -> Receiver {
        self.rise().wait(protocol::PULSE_US).fall().wait(SETTLE_US)
    }

    /// The receiver after a byte crossed the bus: register select set, then the
    /// high nibble and a pulse, then the low nibble and a pulse.
    pub open spec fn byte(self, rs: bool, byte: u8) -> Receiver {
        self.select(rs).with_data(byte / 16).pulse().with_data(byte % 16).pulse()
    }

    /// The receiver after an instruction.
    pub open spec fn command(self, byte: u8) -> Receiver {
        self.byte(false, byte).wait(SETTLE_US)
    }

    /// The receiver after a byte of character data.
    pub open spec fn data_byte(self, byte: u8) -> Receiver {
        self.byte(true, byte).wait(SETTLE_US).wait(protocol::ADDRESS_US)
    }

    /// The receiver after the display was cleared.
    pub open spec fn clear(self) -> Receiver {
        self.command(protocol::CLEAR_DISPLAY).wait(protocol::CLEAR_US)
    }

    /// The receiver after the wake-up of an initialization.
    pub open spec fn wake(self) -> Receiver {
        let first = self.select(false).with_data(protocol::WAKE_NIBBLE).pulse().wait(
            protocol::WAKE_FIRST_US,
        );
        let second = first.pulse().wait(protocol::WAKE_SECOND_US);
        let third = second.pulse().wait(SETTLE_US);
        third.with_data(protocol::FOUR_BIT_NIBBLE).pulse().wait(SETTLE_US)
    }

    /// The receiver after an initialization.
    pub open spec fn initialize(self, config: FunctionConfig) -> Receiver {
        self.wake().command(protocol::function_set_byte(config)).command(
            protocol::display_control_byte(
                DisplayState { power: false, cursor: false, blink: false },
            ),
        ).clear().command(protocol::ENTRY_RIGHT_NO_SHIFT)
    }

    /// The receiver after a text was sent as character data.
    pub open spec fn write(self, text: Seq<u8>) -> Receiver
        decreases text.len(),
    {
        if text.len() == 0 {
            self
        } else {
            self.write(text.drop_last()).data_byte(text.last())
        }
    }
}

/// The data lines carry the low four bits of what was put on them.
pub proof fn lemma_nibble_on_lines(levels: Levels, nibble: u8)
    ensures
        levels.with_data(nibble).nibble() == nibble % 16,
        levels.with_data(nibble).rs == levels.rs,
        levels.with_data(nibble).en == levels.en,
{
    let b0: u8 = if nibble % 2 == 1 { 1 } else { 0 };
    let b1: u8 = if (nibble / 2) % 2 == 1 { 2 } else { 0 };
    let b2: u8 = if (nibble / 4) % 2 == 1 { 4 } else { 0 };
    let b3: u8 = if (nibble / 8) % 2 == 1 { 8 } else { 0 };
    assert(b0 == nibble & 1) by (bit_vector)
        requires
            b0 == (if nibble % 2 == 1 { 1u8 } else { 0u8 }),
    ;
    assert(b1 == nibble & 2) by (bit_vector)
        requires
            b1 == (if (nibble / 2) % 2 == 1 { 2u8 } else { 0u8 }),
    ;
    assert(b2 == nibble & 4) by (bit_vector)
        requires
            b2 == (if (nibble / 4) % 2 == 1 { 4u8 } else { 0u8 }),
    ;
    assert(b3 == nibble & 8) by (bit_vector)
        requires
            b3 == (if (nibble / 8) % 2 == 1 { 8u8 } else { 0u8 }),
    ;
    assert((nibble & 1) + (nibble & 2) + (nibble & 4) + (nibble & 8) == nibble % 16)
        by (bit_vector);
}

/// Performing one more operation is one more step.
pub proof fn lemma_run_push(receiver: Receiver, pins: LcdPinMap, ops: Seq<BusOp>, op: BusOp)
    ensures
        receiver.run(pins, ops.push(op)) == receiver.run(pins, ops).step(pins, op),
{
    assert(ops.push(op).drop_last() =~= ops);
}

/// The receiver latches nibbles only.
pub proof fn lemma_run_keeps_wf(receiver: Receiver, pins: LcdPinMap, ops: Seq<BusOp>)
    requires
        receiver.wf(),
    ensures
        receiver.run(pins, ops).wf(),
    decreases ops.len(),
{
    if ops.len() > 0 {
        lemma_run_keeps_wf(receiver, pins, ops.drop_last());
    }
}

/// What the receiver makes of register select being set.
pub proof fn lemma_sees_rs(receiver: Receiver, bus: BusView, bit: bool)
    requires
        bus.pins.distinct(),
    ensures
        receiver.sees(bus.rs(bit)) == receiver.sees(bus).select(bit),
{
    lemma_run_push(receiver, bus.pins, bus.ops, BusOp::Level { pin: bus.pins.rs, high: bit });
}

/// What the receiver makes of a delay.
pub proof fn lemma_sees_delay(receiver: Receiver, bus: BusView, micros: u32)
    ensures
        receiver.sees(bus.delay(micros)) == receiver.sees(bus).wait(micros),
{
    lemma_run_push(receiver, bus.pins, bus.ops, BusOp::DelayUs { micros });
}

/// What the receiver makes of a nibble being put on the data lines: the data
/// lines change, nothing is latched.
pub proof fn lemma_sees_data(receiver: Receiver, bus: BusView, nibble: u8)
    requires
        bus.pins.distinct(),
    ensures
        receiver.sees(bus.data(nibble)) == receiver.sees(bus).with_data(nibble),
{
    let pins = bus.pins;
    let a = BusOp::Level { pin: pins.d4, high: nibble_bit(nibble, 0) };
    let b = BusOp::Level { pin: pins.d5, high: nibble_bit(nibble, 1) };
    let c = BusOp::Level { pin: pins.d6, high: nibble_bit(nibble, 2) };
    let d = BusOp::Level { pin: pins.d7, high: nibble_bit(nibble, 3) };
    assert(bus.data(nibble).ops =~= bus.ops.push(a).push(b).push(c).push(d));
    lemma_run_push(receiver, pins, bus.ops, a);
    lemma_run_push(receiver, pins, bus.ops.push(a), b);
    lemma_run_push(receiver, pins, bus.ops.push(a).push(b), c);
    lemma_run_push(receiver, pins, bus.ops.push(a).push(b).push(c), d);
}

/// What the receiver makes of enable being set: high, it rises; low, it
/// falls and the hold is waited.
pub proof fn lemma_sees_enable(receiver: Receiver, bus: BusView, bit: bool)
    requires
        bus.pins.distinct(),
    ensures
        receiver.sees(bus.enable(bit)) == if bit {
            receiver.sees(bus).rise()
        } else {
            receiver.sees(bus).fall().wait(SETTLE_US)
        },
{
    let set = BusOp::Level { pin: bus.pins.en, high: bit };
    lemma_run_push(receiver, bus.pins, bus.ops, set);
    if !bit {
        lemma_run_push(receiver, bus.pins, bus.ops.push(set), BusOp::DelayUs { micros: SETTLE_US });
    }
}

/// What the receiver makes of a pulse on enable: one nibble latched, whatever
/// the level of enable was before, and the hold waited behind it.
pub proof fn lemma_sees_strobe(receiver: Receiver, bus: BusView)
    requires
        bus.pins.distinct(),
    ensures
        receiver.sees(protocol::strobe(bus)) == receiver.sees(bus).pulse(),
{
    lemma_sees_enable(receiver, bus, true);
    lemma_sees_delay(receiver, bus.enable(true), protocol::PULSE_US);
    lemma_sees_enable(receiver, bus.enable(true).delay(protocol::PULSE_US), false);
}

/// What the receiver makes of a byte crossing the bus.
pub proof fn lemma_sees_byte(receiver: Receiver, bus: BusView, rs: bool, byte: u8)
    requires
        bus.pins.distinct(),
    ensures
        receiver.sees(protocol::send_byte(bus.rs(rs), byte)) == receiver.sees(bus).byte(rs, byte),
{
    let selected = bus.rs(rs);
    lemma_sees_rs(receiver, bus, rs);
    lemma_sees_data(receiver, selected, byte / 16);
    lemma_sees_strobe(receiver, selected.data(byte / 16));
    let half = protocol::send_nibble(selected, byte / 16);
    lemma_sees_data(receiver, half, byte % 16);
    lemma_sees_strobe(receiver, half.data(byte % 16));
}

/// What the receiver makes of an instruction.
pub proof fn lemma_sees_command(receiver: Receiver, bus: BusView, byte: u8)
    requires
        bus.pins.distinct(),
    ensures
        receiver.sees(protocol::command(bus, byte)) == receiver.sees(bus).command(byte),
{
    lemma_sees_byte(receiver, bus, false, byte);
    lemma_sees_delay(receiver, protocol::send_byte(bus.rs(false), byte), SETTLE_US);
}

/// What the receiver makes of a byte of character data.
pub proof fn lemma_sees_data_byte(receiver: Receiver, bus: BusView, byte: u8)
    requires
        bus.pins.distinct(),
    ensures
        receiver.sees(protocol::data_byte(bus, byte)) == receiver.sees(bus).data_byte(byte),
{
    lemma_sees_byte(receiver, bus, true, byte);
    let sent = protocol::send_byte(bus.rs(true), byte);
    lemma_sees_delay(receiver, sent, SETTLE_US);
    lemma_sees_delay(receiver, sent.delay(SETTLE_US), protocol::ADDRESS_US);
}

/// What the receiver makes of the display being cleared.
pub proof fn lemma_sees_clear(receiver: Receiver, bus: BusView)
    requires
        bus.pins.distinct(),
    ensures
        receiver.sees(protocol::clear(bus)) == receiver.sees(bus).clear(),
{
    lemma_sees_command(receiver, bus, protocol::CLEAR_DISPLAY);
    lemma_sees_delay(receiver, protocol::command(bus, protocol::CLEAR_DISPLAY), protocol::CLEAR_US);
}

/// What the receiver makes of the wake-up.
pub proof fn lemma_sees_wake(receiver: Receiver, bus: BusView)
    requires
        bus.pins.distinct(),
    ensures
        receiver.sees(protocol::wake(bus)) == receiver.sees(bus).wake(),
{
    let selected = bus.rs(false);
    lemma_sees_rs(receiver, bus, false);
    lemma_sees_data(receiver, selected, protocol::WAKE_NIBBLE);
    lemma_sees_strobe(receiver, selected.data(protocol::WAKE_NIBBLE));
    let latched = protocol::send_nibble(selected, protocol::WAKE_NIBBLE);
    lemma_sees_delay(receiver, latched, protocol::WAKE_FIRST_US);
    let first = latched.delay(protocol::WAKE_FIRST_US);
    lemma_sees_strobe(receiver, first);
    lemma_sees_delay(receiver, protocol::strobe(first), protocol::WAKE_SECOND_US);
    let second = protocol::strobe(first).delay(protocol::WAKE_SECOND_US);
    lemma_sees_strobe(receiver, second);
    lemma_sees_delay(receiver, protocol::strobe(second), SETTLE_US);
    let third = protocol::strobe(second).delay(SETTLE_US);
    lemma_sees_data(receiver, third, protocol::FOUR_BIT_NIBBLE);
    lemma_sees_strobe(receiver, third.data(protocol::FOUR_BIT_NIBBLE));
    lemma_sees_delay(
        receiver,
        protocol::send_nibble(third, protocol::FOUR_BIT_NIBBLE),
        SETTLE_US,
    );
}

/// What the receiver makes of an initialization.
pub proof fn lemma_sees_initialize(receiver: Receiver, bus: BusView, config: FunctionConfig)
    requires
        bus.pins.distinct(),
    ensures
        receiver.sees(protocol::initialize(bus, config)) == receiver.sees(bus).initialize(config),
{
    let dark = DisplayState { power: false, cursor: false, blink: false };
    lemma_sees_wake(receiver, bus);
    let awake = protocol::wake(bus);
    lemma_sees_command(receiver, awake, protocol::function_set_byte(config));
    let set = protocol::command(awake, protocol::function_set_byte(config));
    lemma_sees_command(receiver, set, protocol::display_control_byte(dark));
    let off = protocol::display_control(set, dark);
    lemma_sees_clear(receiver, off);
    lemma_sees_command(receiver, protocol::clear(off), protocol::ENTRY_RIGHT_NO_SHIFT);
}

/// After a pulse, the receiver has latched what was on the lines, once, and
/// the controller has settled. The pulse was hurried only if the controller
/// had not settled before it.
pub proof fn lemma_pulse_summary(receiver: Receiver)
    ensures
        receiver.pulse() == (Receiver {
            levels: receiver.levels.rest(),
            latched: receiver.latched.push(
                Latched { rs: receiver.levels.rs, value: receiver.levels.nibble() },
            ),
            waited: receiver.waited + pulse_us(),
            rested: SETTLE_US as nat,
            hurried: receiver.hurried || !receiver.settled(),
        }),
{
}

/// After a byte crossed the bus, the receiver has latched its two nibbles
/// more, the high one first, and the controller has settled after each. Only
/// the first pulse can have been hurried, by what went before.
pub proof fn lemma_byte_summary(receiver: Receiver, rs: bool, byte: u8)
    ensures
        receiver.byte(rs, byte) == (Receiver {
            levels: receiver.levels.after_byte(rs, byte),
            latched: receiver.latched + byte_nibbles(rs, byte),
            waited: receiver.waited + 2 * pulse_us(),
            rested: SETTLE_US as nat,
            hurried: receiver.hurried || !receiver.settled(),
        }),
{
    let selected = receiver.select(rs).with_data(byte / 16);
    lemma_nibble_on_lines(receiver.select(rs).levels, byte / 16);
    lemma_pulse_summary(selected);
    let high = selected.pulse();
    lemma_nibble_on_lines(high.levels, byte % 16);
    lemma_pulse_summary(high.with_data(byte % 16));
    assert((byte / 16) % 16 == byte as int / 16);
    assert((byte % 16) % 16 == byte as int % 16);
    assert(receiver.byte(rs, byte).latched =~= receiver.latched + byte_nibbles(rs, byte));
}

/// After the wake-up, the receiver has latched its four nibbles more, and
/// the controller has settled after each.
pub proof fn lemma_wake_summary(receiver: Receiver)
    ensures
        receiver.wake().latched == receiver.latched + wake_nibbles(),
        receiver.wake().waited == receiver.waited + wake_us(),
        receiver.wake().rested == 2 * SETTLE_US,
        receiver.wake().hurried == (receiver.hurried || !receiver.settled()),
{
    let selected = receiver.select(false).with_data(protocol::WAKE_NIBBLE);
    lemma_nibble_on_lines(receiver.select(false).levels, protocol::WAKE_NIBBLE);
    lemma_pulse_summary(selected);
    let first = selected.pulse().wait(protocol::WAKE_FIRST_US);
    lemma_pulse_summary(first);
    let second = first.pulse().wait(protocol::WAKE_SECOND_US);
    lemma_pulse_summary(second);
    let third = second.pulse().wait(SETTLE_US);
    assert(first.levels.nibble() == 3);
    assert(second.levels.nibble() == 3);
    lemma_nibble_on_lines(third.levels, protocol::FOUR_BIT_NIBBLE);
    lemma_pulse_summary(third.with_data(protocol::FOUR_BIT_NIBBLE));
    assert(receiver.wake().latched =~= receiver.latched + wake_nibbles());
}

/// After an initialization, the receiver has latched its twelve nibbles
/// more, the whole time of an initialization has been waited, and the
/// controller has settled after every pulse.
pub proof fn lemma_initialize_summary(receiver: Receiver, config: FunctionConfig)
    ensures
        receiver.initialize(config).latched == receiver.latched + initialize_nibbles(config),
        receiver.initialize(config).waited == receiver.waited + initialize_us(),
        receiver.initialize(config).rested == 2 * SETTLE_US,
        receiver.initialize(config).hurried == (receiver.hurried || !receiver.settled()),
{
    let dark = DisplayState { power: false, cursor: false, blink: false };
    lemma_wake_summary(receiver);
    let awake = receiver.wake();
    lemma_byte_summary(awake, false, protocol::function_set_byte(config));
    let set = awake.command(protocol::function_set_byte(config));
    lemma_byte_summary(set, false, protocol::display_control_byte(dark));
    let off = set.command(protocol::display_control_byte(dark));
    lemma_byte_summary(off, false, protocol::CLEAR_DISPLAY);
    let cleared = off.clear();
    lemma_byte_summary(cleared, false, protocol::ENTRY_RIGHT_NO_SHIFT);
    assert(receiver.initialize(config).latched =~= receiver.latched + initialize_nibbles(config));
}

/// After a text was sent, the receiver has latched two nibbles more for each
/// of its bytes, in the order of the text, and the time of each has been
/// waited. If the controller had settled before, it has settled after, and
/// no pulse was hurried.
pub proof fn lemma_write_summary(receiver: Receiver, text: Seq<u8>)
    ensures
        receiver.write(text).latched == receiver.latched + text_nibbles(text),
        receiver.write(text).waited == receiver.waited + text.len() * data_byte_us(),
        receiver.settled() ==> receiver.write(text).settled() && receiver.write(text).hurried
            == receiver.hurried,
    decreases text.len(),
{
    if text.len() == 0 {
        assert(receiver.latched + text_nibbles(text) =~= receiver.latched);
    } else {
        let before = receiver.write(text.drop_last());
        lemma_write_summary(receiver, text.drop_last());
        lemma_byte_summary(before, true, text.last());
        assert(receiver.write(text).latched =~= receiver.latched + text_nibbles(text));
        assert(text.len() * data_byte_us() == (text.len() - 1) * data_byte_us() + data_byte_us())
            by (nonlinear_arith);
    }
}

/// The nibbles of a text, one by one: two for each byte, both character
/// data, the high nibble of the byte before its low nibble.
pub proof fn lemma_text_nibbles(text: Seq<u8>)
    ensures
        text_nibbles(text).len() == 2 * text.len(),
        forall|i: int|
            0 <= i < text.len() ==> #[trigger] text_nibbles(text)[2 * i] == (Latched {
                rs: true,
                value: text[i] as int / 16,
            }) && text_nibbles(text)[2 * i + 1] == (Latched {
                rs: true,
                value: text[i] as int % 16,
            }),
    decreases text.len(),
{
    if text.len() > 0 {
        lemma_text_nibbles(text.drop_last());
    }
}

/// A reset brings the lines to rest and lets the controller settle.
///
/// After it the controller sees register select high, enable low and the
/// nibble 0 on the data lines, whatever it saw before, and it has settled:
/// the next pulse is not hurried. Nothing is latched, unless enable was high
/// before: then its fall latches what the data lines showed, once.
pub proof fn reset_brings_lines_to_rest(receiver: Receiver, bus: BusView)
    requires
        bus.pins.distinct(),
    ensures
        receiver.sees(bus.reset()).levels == (Levels {
            rs: true,
            en: false,
            d4: false,
            d5: false,
            d6: false,
            d7: false,
        }),
        receiver.sees(bus.reset()).waited == receiver.sees(bus).waited + SETTLE_US,
        receiver.sees(bus.reset()).settled(),
        receiver.sees(bus.reset()).hurried == receiver.sees(bus).hurried,
        receiver.sees(bus.reset()).latched == (if receiver.sees(bus).levels.en {
            receiver.sees(bus).latched.push(
                Latched { rs: true, value: receiver.sees(bus).levels.nibble() },
            )
        } else {
            receiver.sees(bus).latched
        }),
{
    lemma_sees_rs(receiver, bus, true);
    lemma_sees_enable(receiver, bus.rs(true), false);
    lemma_sees_data(receiver, bus.rs(true).enable(false), 0);
}

/// Every byte crosses the bus as exactly two nibbles, the high one first,
/// and the controller is left to settle after each.
///
/// An instruction sets register select low, character data sets it high.
/// Then, for the high nibble of the byte and after it for the low nibble:
/// the four bits go on the data lines, bit 0 on D4, bit 1 on D5, bit 2 on
/// D6, bit 3 on D7, one pulse on enable follows, and after the pulse the
/// time to settle is waited before anything else. Whatever the lines showed
/// before, the controller latches exactly those two nibbles, in that order,
/// with register select as set. The pulse of the low nibble is never
/// hurried; that of the high nibble only if the controller had not settled
/// before the byte. After the byte the controller has settled, and more so
/// after an instruction, after character data, and most after a clear.
pub proof fn byte_crosses_as_two_nibbles(receiver: Receiver, bus: BusView, byte: u8)
    requires
        bus.pins.distinct(),
    ensures
        protocol::command(bus, byte).ops == bus.ops + protocol::byte_ops(bus.pins, false, byte)
            + seq![BusOp::DelayUs { micros: SETTLE_US }],
        protocol::data_byte(bus, byte).ops == bus.ops + protocol::byte_ops(bus.pins, true, byte)
            + seq![
            BusOp::DelayUs { micros: SETTLE_US },
            BusOp::DelayUs { micros: protocol::ADDRESS_US },
        ],
        receiver.sees(protocol::command(bus, byte)).latched == receiver.sees(bus).latched + seq![
            Latched { rs: false, value: byte as int / 16 },
            Latched { rs: false, value: byte as int % 16 },
        ],
        receiver.sees(protocol::data_byte(bus, byte)).latched == receiver.sees(bus).latched + seq![
            Latched { rs: true, value: byte as int / 16 },
            Latched { rs: true, value: byte as int % 16 },
        ],
        16 * (byte as int / 16) + byte as int % 16 == byte,
        receiver.sees(protocol::command(bus, byte)).hurried == (receiver.sees(bus).hurried
            || !receiver.sees(bus).settled()),
        receiver.sees(protocol::data_byte(bus, byte)).hurried == (receiver.sees(bus).hurried
            || !receiver.sees(bus).settled()),
        receiver.sees(protocol::send_byte(bus.rs(true), byte)).rested == SETTLE_US,
        receiver.sees(protocol::command(bus, byte)).rested == 2 * SETTLE_US,
        receiver.sees(protocol::data_byte(bus, byte)).rested == 2 * SETTLE_US
            + protocol::ADDRESS_US,
        receiver.sees(protocol::clear(bus)).rested == 2 * SETTLE_US + protocol::CLEAR_US,
{
    lemma_sees_byte(receiver, bus, true, byte);
    lemma_sees_command(receiver, bus, byte);
    lemma_sees_data_byte(receiver, bus, byte);
    lemma_sees_clear(receiver, bus);
    lemma_byte_summary(receiver.sees(bus), false, byte);
    lemma_byte_summary(receiver.sees(bus), true, byte);
    lemma_byte_summary(receiver.sees(bus), false, protocol::CLEAR_DISPLAY);
    assert(protocol::command(bus, byte).ops =~= bus.ops + protocol::byte_ops(
        bus.pins,
        false,
        byte,
    ) + seq![BusOp::DelayUs { micros: SETTLE_US }]);
    assert(protocol::data_byte(bus, byte).ops =~= bus.ops + protocol::byte_ops(
        bus.pins,
        true,
        byte,
    ) + seq![
        BusOp::DelayUs { micros: SETTLE_US },
        BusOp::DelayUs { micros: protocol::ADDRESS_US },
    ]);
}

} // verus!

//! A model of the display controller behind its receiver: the interface and
//! the registers that the latched nibbles act on.
//!
//! The library never reads the controller. This model is how it states what
//! the nibbles it sends achieve: that an initialization brings any controller
//! to one known state, and that what follows it arrives as whole bytes.

use vstd::prelude::*;
use crate::receiver::{
    all_nibbles, byte_nibbles, initialize_nibbles, text_nibbles, wake_nibbles, Latched,
};
use crate::protocol;
use crate::protocol::{DisplayState, FunctionConfig, Lines, Matrix};

verus! {

/// The direction in which the cursor moves after a character, and whether the
/// display shifts with it.
pub struct EntryMode {
    pub increment: bool,
    pub shift: bool,
}

/// The controller behind the receiver.
pub struct Controller {
    /// The interface is eight bits wide: every latched nibble is the high
    /// half of a byte whose low half is read from the four low data lines.
    pub eight_bit: bool,
    /// On the four-bit interface, the high nibble that waits for its low
    /// nibble.
    pub half: Option<int>,
    /// What the four low data lines read. Nothing drives them on this bus.
    pub low_lines: int,
    /// The line count and the matrix last set.
    pub config: FunctionConfig,
    /// The three switches as last set.
    pub display: DisplayState,
    /// The entry mode as last set.
    pub entry: EntryMode,
    /// Character data goes to the character generator, not to the display.
    pub character_ram: bool,
    /// The character data written to the display since it was last cleared,
    /// oldest first.
    pub text: Seq<u8>,
}

impl Controller {
    /// The nibbles that the controller holds are nibbles.
    pub open spec fn wf(self) -> bool {
        &&& 0 <= self.low_lines < 16
        &&& self.half matches Some(high) ==> 0 <= high < 16
    }

    /// The four-bit interface is latched and no nibble waits for its other
    /// half: the next two nibbles are one byte.
    pub open spec fn in_step(self) -> bool {
        !self.eight_bit && self.half is None
    }

    /// The controller after a whole byte arrived: character data if register
    /// select was high, else the instruction that its highest set bit names.
    /// Setting the interface starts it afresh: no nibble waits after it.
    pub open spec fn execute(self, rs: bool, byte: int) -> Controller {
        if rs {
            if self.character_ram {
                self
            } else {
                Controller { text: self.text.push(byte as u8), ..self }
            }
        } else if byte >= 0x80 {
            Controller { character_ram: false, ..self }
        } else if byte >= 0x40 {
            Controller { character_ram: true, ..self }
        } else if byte >= 0x20 {
            Controller {
                eight_bit: (byte / 16) % 2 == 1,
                half: None,
                config: FunctionConfig {
                    lines: if (byte / 8) % 2 == 1 { Lines::Two } else { Lines::One },
                    matrix: if (byte / 4) % 2 == 1 { Matrix::Dots5x10 } else { Matrix::Dots5x8 },
                },
                ..self
            }
        } else if byte >= 0x10 {
            self
        } else if byte >= 0x08 {
            Controller {
                display: DisplayState {
                    power: (byte / 4) % 2 == 1,
                    cursor: (byte / 2) % 2 == 1,
                    blink: byte % 2 == 1,
                },
                ..self
            }
        } else if byte >= 0x04 {
            Controller {
                entry: EntryMode { increment: (byte / 2) % 2 == 1, shift: byte % 2 == 1 },
                ..self
            }
        } else if byte >= 0x02 {
            Controller { character_ram: false, ..self }
        } else if byte == 0x01 {
            Controller {
                text: Seq::empty(),
                character_ram: false,
                entry: EntryMode { increment: true, shift: self.entry.shift },
                ..self
            }
        } else {
            self
        }
    }

    /// The controller after it latched one nibble.
    pub open spec fn hear(self, nibble: Latched) -> Controller {
        if self.eight_bit {
            self.execute(nibble.rs, 16 * nibble.value + self.low_lines)
        } else {
            match self.half {
                None => Controller { half: Some(nibble.value), ..self },
                Some(high) => Controller { half: None, ..self }.execute(
                    nibble.rs,
                    16 * high + nibble.value,
                ),
            }
        }
    }

    /// The controller after it latched the nibbles, first to last.
    pub open spec fn hear_all(self, nibbles: Seq<Latched>) -> Controller
        decreases nibbles.len(),
    {
        if nibbles.len() == 0 {
            self
        } else {
            self.hear_all(nibbles.drop_last()).hear(nibbles.last())
        }
    }

    /// The controller as an initialization leaves it.
    pub open spec fn initialized(config: FunctionConfig, low_lines: int) -> Controller {
        Controller {
            eight_bit: false,
            half: None,
            low_lines,
            config,
            display: DisplayState { power: false, cursor: false, blink: false },
            entry: EntryMode { increment: true, shift: false },
            character_ram: false,
            text: Seq::empty(),
        }
    }
}

/// Latching one more nibble is one more step.
pub proof fn lemma_hear_push(controller: Controller, nibbles: Seq<Latched>, nibble: Latched)
    ensures
        controller.hear_all(nibbles.push(nibble)) == controller.hear_all(nibbles).hear(nibble),
{
    assert(nibbles.push(nibble).drop_last() =~= nibbles);
}

/// Latching two sequences one after the other is latching their
/// concatenation.
pub proof fn lemma_hear_concat(controller: Controller, first: Seq<Latched>, second: Seq<Latched>)
    ensures
        controller.hear_all(first + second) == controller.hear_all(first).hear_all(second),
    decreases second.len(),
{
    if second.len() == 0 {
        assert(first + second =~= first);
    } else {
        lemma_hear_concat(controller, first, second.drop_last());
        assert((first + second).drop_last() =~= first + second.drop_last());
        assert((first + second).last() == second.last());
    }
}

/// Whatever nibbles it latches, the controller holds nibbles, and what the
/// low data lines read does not change.
pub proof fn lemma_hear_keeps_wf(controller: Controller, nibbles: Seq<Latched>)
    requires
        controller.wf(),
        all_nibbles(nibbles),
    ensures
        controller.hear_all(nibbles).wf(),
        controller.hear_all(nibbles).low_lines == controller.low_lines,
    decreases nibbles.len(),
{
    if nibbles.len() > 0 {
        lemma_hear_keeps_wf(controller, nibbles.drop_last());
        assert(0 <= nibbles[nibbles.len() - 1].value < 16);
    }
}

/// On a controller that is in step, the two nibbles of a byte are that byte.
pub proof fn lemma_hear_byte(controller: Controller, rs: bool, byte: u8)
    requires
        controller.in_step(),
    ensures
        controller.hear_all(byte_nibbles(rs, byte)) == controller.execute(rs, byte as int),
{
    let high = Latched { rs, value: byte as int / 16 };
    let low = Latched { rs, value: byte as int % 16 };
    assert(byte_nibbles(rs, byte) =~= Seq::<Latched>::empty().push(high).push(low));
    lemma_hear_push(controller, Seq::empty(), high);
    lemma_hear_push(controller, Seq::<Latched>::empty().push(high), low);
    assert(controller.hear_all(Seq::empty()) == controller);
    assert(controller.hear(high).hear(low) == controller.execute(rs, byte as int));
}

/// What the nibble 3, latched as an instruction, does to the interface. On
/// the eight-bit interface it asks for that interface again. On the four-bit
/// interface it waits if no nibble waited, and completes an instruction if
/// one did: the one that asks for the eight-bit interface if that one was a 3
/// too.
proof fn lemma_hear_three(controller: Controller)
    requires
        controller.wf(),
    ensures
        ({
            let next = controller.hear(Latched { rs: false, value: 3 });
            &&& next.wf()
            &&& next.low_lines == controller.low_lines
            &&& controller.eight_bit ==> next.eight_bit && next.half is None
            &&& !controller.eight_bit && controller.half is None ==> !next.eight_bit && next.half
                == Some(3int)
            &&& !controller.eight_bit && controller.half == Some(3int) ==> next.eight_bit
                && next.half is None
            &&& !controller.eight_bit && controller.half is Some ==> next.half is None
        }),
{
    if controller.eight_bit {
        let byte = 16 * 3 + controller.low_lines;
        assert(0x30 <= byte < 0x40);
        assert(byte / 16 == 3);
    }
}

/// What the nibble 2, latched as an instruction, does to a controller on the
/// eight-bit interface: it asks for the four-bit interface.
proof fn lemma_hear_two(controller: Controller)
    requires
        controller.wf(),
        controller.eight_bit,
    ensures
        ({
            let next = controller.hear(Latched { rs: false, value: 2 });
            &&& next.wf()
            &&& next.low_lines == controller.low_lines
            &&& next.in_step()
        }),
{
    let byte = 16 * 2 + controller.low_lines;
    assert(0x20 <= byte < 0x30);
    assert(byte / 16 == 2);
}

/// The wake-up brings the controller in step, whatever it was doing: on
/// either interface, with or without a nibble waiting.
pub proof fn lemma_wake_brings_in_step(controller: Controller)
    requires
        controller.wf(),
    ensures
        controller.hear_all(wake_nibbles()).in_step(),
        controller.hear_all(wake_nibbles()).wf(),
        controller.hear_all(wake_nibbles()).low_lines == controller.low_lines,
{
    let three = Latched { rs: false, value: 3 };
    let two = Latched { rs: false, value: 2 };
    let none = Seq::<Latched>::empty();
    assert(wake_nibbles() =~= none.push(three).push(three).push(three).push(two));
    lemma_hear_push(controller, none, three);
    lemma_hear_push(controller, none.push(three), three);
    lemma_hear_push(controller, none.push(three).push(three), three);
    lemma_hear_push(controller, none.push(three).push(three).push(three), two);
    assert(controller.hear_all(none) == controller);
    let first = controller.hear(three);
    let second = first.hear(three);
    let third = second.hear(three);
    lemma_hear_three(controller);
    lemma_hear_three(first);
    lemma_hear_three(second);
    lemma_hear_two(third);
}

/// The nibbles of an initialization leave the controller initialized,
/// whatever it was doing before.
pub proof fn lemma_hear_initialize(controller: Controller, config: FunctionConfig)
    requires
        controller.wf(),
    ensures
        controller.hear_all(initialize_nibbles(config)) == Controller::initialized(
            config,
            controller.low_lines,
        ),
{
    let dark = DisplayState { power: false, cursor: false, blink: false };
    let set = byte_nibbles(false, protocol::function_set_byte(config));
    let off = byte_nibbles(false, protocol::display_control_byte(dark));
    let clear = byte_nibbles(false, protocol::CLEAR_DISPLAY);
    let entry = byte_nibbles(false, protocol::ENTRY_RIGHT_NO_SHIFT);
    lemma_wake_brings_in_step(controller);
    let awake = controller.hear_all(wake_nibbles());
    lemma_hear_concat(controller, wake_nibbles(), set);
    lemma_hear_byte(awake, false, protocol::function_set_byte(config));
    let configured = awake.execute(false, protocol::function_set_byte(config) as int);
    assert(configured.in_step() && configured.config == config);
    lemma_hear_concat(controller, wake_nibbles() + set, off);
    lemma_hear_byte(configured, false, protocol::display_control_byte(dark));
    let darkened = configured.execute(false, protocol::display_control_byte(dark) as int);
    assert(darkened.in_step() && darkened.display == dark);
    lemma_hear_concat(controller, wake_nibbles() + set + off, clear);
    lemma_hear_byte(darkened, false, protocol::CLEAR_DISPLAY);
    let cleared = darkened.execute(false, protocol::CLEAR_DISPLAY as int);
    assert(cleared.in_step());
    lemma_hear_concat(controller, wake_nibbles() + set + off + clear, entry);
    lemma_hear_byte(cleared, false, protocol::ENTRY_RIGHT_NO_SHIFT);
    let done = cleared.execute(false, protocol::ENTRY_RIGHT_NO_SHIFT as int);
    assert(done.text =~= Seq::<u8>::empty());
    assert(done == Controller::initialized(config, controller.low_lines));
}

/// A controller that is in step takes the display control instruction as
/// what it says: the three switches are set, nothing else changes.
pub proof fn lemma_hear_display_control(controller: Controller, state: DisplayState)
    requires
        controller.in_step(),
    ensures
        controller.hear_all(byte_nibbles(false, protocol::display_control_byte(state))) == (
        Controller { display: state, ..controller }),
{
    lemma_hear_byte(controller, false, protocol::display_control_byte(state));
}

/// A controller that is in step takes the clear instruction as what it says:
/// the text is gone, character data goes to the display, the cursor moves
/// forward; the three switches stay.
pub proof fn lemma_hear_clear(controller: Controller)
    requires
        controller.in_step(),
    ensures
        controller.hear_all(byte_nibbles(false, protocol::CLEAR_DISPLAY)) == (Controller {
            text: Seq::empty(),
            character_ram: false,
            entry: EntryMode { increment: true, shift: controller.entry.shift },
            ..controller
        }),
{
    lemma_hear_byte(controller, false, protocol::CLEAR_DISPLAY);
}

/// A controller that is in step takes a text as what it is: if it is
/// writing to the display, the bytes of the text are added to the text of
/// the display, in order; nothing else changes, and it is in step after it.
pub proof fn lemma_hear_text(controller: Controller, text: Seq<u8>)
    requires
        controller.in_step(),
    ensures
        controller.hear_all(text_nibbles(text)) == (Controller {
            text: if controller.character_ram {
                controller.text
            } else {
                controller.text + text
            },
            ..controller
        }),
    decreases text.len(),
{
    if text.len() == 0 {
        assert(controller.text + text =~= controller.text);
    } else {
        let head = text.drop_last();
        lemma_hear_text(controller, head);
        lemma_hear_concat(controller, text_nibbles(head), byte_nibbles(true, text.last()));
        let before = controller.hear_all(text_nibbles(head));
        lemma_hear_byte(before, true, text.last());
        assert((controller.text + head).push(text.last()) =~= controller.text + text);
    }
}

} // verus!

//! The bus adapter: six output lines bound to the roles of a 4-bit character
//! display bus.
//!
//! The adapter owns no protocol knowledge. It turns the three logical
//! operations of the bus (register select, enable, data nibble) and the delay
//! into operations on physical lines, and records them in the order in which
//! they were asked for. Whoever owns the real lines performs the recorded
//! operations, one by one, in that order.
//!
//! One thing the adapter does of its own: it holds the bus. Whenever enable
//! is set low, the time that the controller needs to settle is recorded as a
//! wait right behind the write, so that nothing can follow the end of a pulse
//! sooner than that, whoever drives the adapter.

use vstd::prelude::*;

verus! {

/// The role a line plays on the bus.
#[derive(Clone, Copy, Debug, PartialEq, Eq)]
pub enum PinRole {
    /// Register select: low for an instruction, high for character data.
    RS,
    /// Enable: the controller latches the data lines when it falls.
    EN,
    /// Data line for bit 0 of a nibble.
    D4,
    /// Data line for bit 1 of a nibble.
    D5,
    /// Data line for bit 2 of a nibble.
    D6,
    /// Data line for bit 3 of a nibble.
    D7,
}

/// The physical line, by number, that each role is bound to.
#[derive(Clone, Copy, Debug, PartialEq, Eq)]
pub struct LcdPinMap {
    pub rs: u8,
    pub en: u8,
    pub d4: u8,
    pub d5: u8,
    pub d6: u8,
    pub d7: u8,
}

/// One operation for the owner of the physical lines to perform.
#[derive(Clone, Copy, Debug, PartialEq, Eq)]
pub enum BusOp {
    /// Drive the line with this number high or low.
    Level { pin: u8, high: bool },
    /// Wait for at least this many microseconds.
    DelayUs { micros: u32 },
}

/// Why a bus adapter could not be made.
#[derive(Clone, Copy, Debug, PartialEq, Eq)]
pub enum BusError {
    /// The line of this role is already bound to a role claimed before it.
    LineTaken(PinRole),
}

/// Microseconds that the controller needs to settle after enable fell: the
/// least time between the end of one pulse and the start of the next.
pub const SETTLE_US: u32 = 50;

/// Bit `index` (0 to 3) of a nibble; only the low four bits of `value` count.
pub open spec fn nibble_bit(value: u8, index: int) -> bool {
    if index == 0 {
        value % 2 == 1
    } else if index == 1 {
        (value / 2) % 2 == 1
    } else if index == 2 {
        (value / 4) % 2 == 1
    } else {
        (value / 8) % 2 == 1
    }
}

impl LcdPinMap {
    /// The first role, in the order RS, EN, D4, D5, D6, D7, whose line is
    /// already bound to an earlier role.
    pub open spec fn conflict(self) -> Option<PinRole> {
        if self.en == self.rs {
            Some(PinRole::EN)
        } else if self.d4 == self.rs || self.d4 == self.en {
            Some(PinRole::D4)
        } else if self.d5 == self.rs || self.d5 == self.en || self.d5 == self.d4 {
            Some(PinRole::D5)
        } else if self.d6 == self.rs || self.d6 == self.en || self.d6 == self.d4 || self.d6
            == self.d5 {
            Some(PinRole::D6)
        } else if self.d7 == self.rs || self.d7 == self.en || self.d7 == self.d4 || self.d7
            == self.d5 || self.d7 == self.d6 {
            Some(PinRole::D7)
        } else {
            None
        }
    }

    /// Every role has a line of its own.
    pub open spec fn distinct(self) -> bool {
        self.conflict() is None
    }

    /// The four writes that put a nibble on the data lines: bit 0 on D4,
    /// bit 1 on D5, bit 2 on D6, bit 3 on D7, in that order.
    pub open spec fn nibble_levels(self, nibble: u8) -> Seq<BusOp> {
        seq![
            BusOp::Level { pin: self.d4, high: nibble_bit(nibble, 0) },
            BusOp::Level { pin: self.d5, high: nibble_bit(nibble, 1) },
            BusOp::Level { pin: self.d6, high: nibble_bit(nibble, 2) },
            BusOp::Level { pin: self.d7, high: nibble_bit(nibble, 3) },
        ]
    }

    /// Finds the first role whose line is already taken, if there is one.
    pub fn first_conflict(&self) -> (found: Option<PinRole>)
        ensures
            found == self.conflict(),
    {
        if self.en == self.rs {
            Some(PinRole::EN)
        } else if self.d4 == self.rs || self.d4 == self.en {
            Some(PinRole::D4)
        } else if self.d5 == self.rs || self.d5 == self.en || self.d5 == self.d4 {
            Some(PinRole::D5)
        } else if self.d6 == self.rs || self.d6 == self.en || self.d6 == self.d4 || self.d6
            == self.d5 {
            Some(PinRole::D6)
        } else if self.d7 == self.rs || self.d7 == self.en || self.d7 == self.d4 || self.d7
            == self.d5 || self.d7 == self.d6 {
            Some(PinRole::D7)
        } else {
            None
        }
    }
}

/// What a bus adapter is, to its callers: the binding of its lines and the
/// operations recorded and not yet handed out, oldest first.
pub struct BusView {
    pub pins: LcdPinMap,
    pub ops: Seq<BusOp>,
}

impl BusView {
    /// The adapter after register select was set.
    pub open spec fn rs(self, bit: bool) -> BusView {
        BusView { pins: self.pins, ops: self.ops.push(BusOp::Level { pin: self.pins.rs, high: bit }) }
    }

    /// The adapter after enable was set. Setting it low is followed by the
    /// wait that lets the controller settle.
    pub open spec fn enable(self, bit: bool) -> BusView {
        let set = self.ops.push(BusOp::Level { pin: self.pins.en, high: bit });
        BusView {
            pins: self.pins,
            ops: if bit {
                set
            } else {
                set.push(BusOp::DelayUs { micros: SETTLE_US })
            },
        }
    }

    /// The adapter after a nibble was put on the data lines.
    pub open spec fn data(self, nibble: u8) -> BusView {
        BusView { pins: self.pins, ops: self.ops + self.pins.nibble_levels(nibble) }
    }

    /// The adapter after a delay was asked for.
    pub open spec fn delay(self, micros: u32) -> BusView {
        BusView { pins: self.pins, ops: self.ops.push(BusOp::DelayUs { micros }) }
    }

    /// The adapter after a reset: register select high, enable low and the
    /// bus held, all four data lines low.
    pub open spec fn reset(self) -> BusView {
        self.rs(true).enable(false).data(0)
    }

    /// An adapter on these lines with nothing recorded.
    pub open spec fn idle(pins: LcdPinMap) -> BusView {
        BusView { pins, ops: Seq::empty() }
    }
}

/// The adapter between the protocol engine and six output lines.
pub struct CharLCD {
    pins: LcdPinMap,
    ops: Vec<BusOp>,
}

impl View for CharLCD {
    type V = BusView;

    closed spec fn view(&self) -> BusView {
        BusView { pins: self.pins, ops: self.ops@ }
    }
}

impl CharLCD {
    /// Claims the six lines in the order RS, EN, D4, D5, D6, D7 and resets
    /// them. Fails at the first role whose line an earlier role holds.
    pub fn init(pins: LcdPinMap) -> (made: Result<CharLCD, BusError>)
        ensures
            pins.conflict() matches Some(role) ==> made == Err::<CharLCD, BusError>(
                BusError::LineTaken(role),
            ),
            pins.conflict() is None ==> made is Ok && made->Ok_0@ == BusView::idle(pins).reset(),
    {
        match pins.first_conflict() {
            Some(role) => Err(BusError::LineTaken(role)),
            None => {
                let mut bus = CharLCD { pins, ops: Vec::new() };
                bus.reset();
                Ok(bus)
            },
        }
    }

    /// Records the writes that bring the lines to rest: register select
    /// high, enable low and the bus held, all four data lines low.
    pub fn reset(&mut self)
        ensures
            final(self)@ == old(self)@.reset(),
    {
        lcd::Hardware::rs(self, true);
        lcd::Hardware::enable(self, false);
        lcd::Hardware::data(self, 0);
    }

    /// The binding of the lines.
    pub fn pins(&self) -> (pins: LcdPinMap)
        ensures
            pins == self@.pins,
    {
        self.pins
    }

    /// Hands out the recorded operations, oldest first, and forgets them.
    pub fn take_ops(&mut self) -> (ops: Vec<BusOp>)
        ensures
            ops@ == old(self)@.ops,
            final(self)@ == BusView::idle(old(self)@.pins),
    {
        let mut ops: Vec<BusOp> = Vec::new();
        core::mem::swap(&mut self.ops, &mut ops);
        ops
    }

    /// An adapter on the same lines with nothing recorded.
    pub(crate) fn idle_twin(&self) -> (twin: CharLCD)
        ensures
            twin@ == BusView::idle(self@.pins),
    {
        CharLCD { pins: self.pins, ops: Vec::new() }
    }
}

/// The adapter as the hardware of the protocol engine. Only the three writes
/// are given; `mode`, `can_read`, `apply` and `wait_address` stay as the
/// trait has them: four bits, never read, nothing to apply or wait for.
impl lcd::Hardware for CharLCD {
    /// Records the write that sets register select.
    fn rs(&mut self, bit: bool)
        ensures
            final(self)@ == old(self)@.rs(bit),
    {
        self.ops.push(BusOp::Level { pin: self.pins.rs, high: bit });
    }

    /// Records the write that sets enable and, where it sets it low, the
    /// wait that lets the controller settle before anything else is done.
    fn enable(&mut self, bit: bool)
        ensures
            final(self)@ == old(self)@.enable(bit),
    {
        self.ops.push(BusOp::Level { pin: self.pins.en, high: bit });
        if !bit {
            self.ops.push(BusOp::DelayUs { micros: SETTLE_US });
        }
    }

    /// Records the four writes that put the low nibble of `data` on the data
    /// lines, each bit on a line of its own: bit 0 on D4, bit 1 on D5, bit 2
    /// on D6, bit 3 on D7.
    fn data(&mut self, data: u8)
        ensures
            final(self)@ == old(self)@.data(data),
    {
        proof {
            assert(((data >> 0u8) & 1u8 == 1u8) == (data % 2 == 1)) by (bit_vector);
            assert(((data >> 1u8) & 1u8 == 1u8) == ((data / 2) % 2 == 1)) by (bit_vector);
            assert(((data >> 2u8) & 1u8 == 1u8) == ((data / 4) % 2 == 1)) by (bit_vector);
            assert(((data >> 3u8) & 1u8 == 1u8) == ((data / 8) % 2 == 1)) by (bit_vector);
        }
        self.ops.push(BusOp::Level { pin: self.pins.d4, high: (data >> 0u8) & 1u8 == 1u8 });
        self.ops.push(BusOp::Level { pin: self.pins.d5, high: (data >> 1u8) & 1u8 == 1u8 });
        self.ops.push(BusOp::Level { pin: self.pins.d6, high: (data >> 2u8) & 1u8 == 1u8 });
        self.ops.push(BusOp::Level { pin: self.pins.d7, high: (data >> 3u8) & 1u8 == 1u8 });
        assert(self.ops@ =~= old(self).ops@ + old(self).pins.nibble_levels(data));
    }
}

impl lcd::Delay for CharLCD {
    /// Records a delay.
    fn delay_us(&mut self, delay_usec: u32)
        ensures
            final(self)@ == old(self)@.delay(delay_usec),
    {
        self.ops.push(BusOp::DelayUs { micros: delay_usec });
    }
}

} // verus!

use c3aznable::char_lcd::{BusError, BusOp, CharLCD, LcdPinMap, PinRole, SETTLE_US};
use lcd::{Delay, Hardware};

fn board() -> LcdPinMap {
    LcdPinMap { rs: 0, en: 10, d4: 4, d5: 5, d6: 6, d7: 7 }
}

fn level(pin: u8, high: bool) -> BusOp {
    BusOp::Level { pin, high }
}

fn hold() -> BusOp {
    BusOp::DelayUs { micros: 50 }
}

fn at_rest() -> Vec<BusOp> {
    vec![
        level(0, true),
        level(10, false),
        hold(),
        level(4, false),
        level(5, false),
        level(6, false),
        level(7, false),
    ]
}

fn fresh() -> CharLCD {
    let mut bus = CharLCD::init(board()).unwrap();
    bus.take_ops();
    bus
}

#[test]
fn init_claims_the_lines_and_resets_them() {
    let mut bus = CharLCD::init(board()).unwrap();
    assert_eq!(bus.pins(), board());
    assert_eq!(bus.take_ops(), at_rest());
}

#[test]
fn init_fails_at_the_first_role_whose_line_is_taken() {
    let cases = [
        (LcdPinMap { en: 0, ..board() }, PinRole::EN),
        (LcdPinMap { d4: 10, ..board() }, PinRole::D4),
        (LcdPinMap { d5: 4, ..board() }, PinRole::D5),
        (LcdPinMap { d6: 0, ..board() }, PinRole::D6),
        (LcdPinMap { d7: 6, ..board() }, PinRole::D7),
        (LcdPinMap { rs: 1, en: 1, d4: 1, d5: 1, d6: 1, d7: 1 }, PinRole::EN),
        (LcdPinMap { d5: 0, d7: 0, ..board() }, PinRole::D5),
    ];
    for (pins, role) in cases {
        assert_eq!(pins.first_conflict(), Some(role));
        match CharLCD::init(pins) {
            Err(error) => assert_eq!(error, BusError::LineTaken(role)),
            Ok(_) => panic!("two roles on one line were accepted"),
        }
    }
}

#[test]
fn distinct_lines_have_no_conflict() {
    assert_eq!(board().first_conflict(), None);
    assert_eq!(LcdPinMap { rs: 255, en: 254, d4: 0, d5: 1, d6: 2, d7: 3 }.first_conflict(), None);
}

#[test]
fn reset_records_rest_levels_after_what_is_there() {
    let mut bus = fresh();
    bus.enable(true);
    bus.reset();
    let mut expected = vec![level(10, true)];
    expected.extend(at_rest());
    assert_eq!(bus.take_ops(), expected);
}

#[test]
fn take_ops_forgets_what_it_hands_out() {
    let mut bus = CharLCD::init(board()).unwrap();
    assert_eq!(bus.take_ops().len(), 7);
    assert_eq!(bus.take_ops(), vec![]);
    assert_eq!(bus.pins(), board());
}

#[test]
fn register_select_and_enable_write_their_own_line() {
    let mut bus = fresh();
    bus.rs(true);
    bus.rs(false);
    bus.enable(true);
    bus.enable(false);
    assert_eq!(
        bus.take_ops(),
        vec![level(0, true), level(0, false), level(10, true), level(10, false), hold()]
    );
}

#[test]
fn the_bus_is_held_whenever_enable_is_set_low() {
    assert_eq!(SETTLE_US, 50);
    let mut bus = fresh();
    bus.enable(false);
    assert_eq!(bus.take_ops(), vec![level(10, false), hold()]);
    bus.enable(true);
    assert_eq!(bus.take_ops(), vec![level(10, true)]);
    bus.enable(true);
    bus.enable(false);
    bus.enable(true);
    bus.enable(false);
    assert_eq!(
        bus.take_ops(),
        vec![
            level(10, true),
            level(10, false),
            hold(),
            level(10, true),
            level(10, false),
            hold()
        ]
    );
}

#[test]
fn data_puts_bit_0_on_d4_up_to_bit_3_on_d7() {
    let mut bus = fresh();
    bus.data(0b0001);
    assert_eq!(
        bus.take_ops(),
        vec![level(4, true), level(5, false), level(6, false), level(7, false)]
    );
    bus.data(0b0010);
    assert_eq!(
        bus.take_ops(),
        vec![level(4, false), level(5, true), level(6, false), level(7, false)]
    );
    bus.data(0b0100);
    assert_eq!(
        bus.take_ops(),
        vec![level(4, false), level(5, false), level(6, true), level(7, false)]
    );
    bus.data(0b1000);
    assert_eq!(
        bus.take_ops(),
        vec![level(4, false), level(5, false), level(6, false), level(7, true)]
    );
}

#[test]
fn data_maps_every_value_bit_by_bit_and_ignores_the_high_bits() {
    for value in 0..=255u8 {
        let mut bus = fresh();
        bus.data(value);
        assert_eq!(
            bus.take_ops(),
            vec![
                level(4, value & 1 != 0),
                level(5, value & 2 != 0),
                level(6, value & 4 != 0),
                level(7, value & 8 != 0),
            ]
        );
    }
}

#[test]
fn delay_is_recorded_in_order() {
    let mut bus = fresh();
    bus.delay_us(0);
    bus.rs(true);
    bus.delay_us(u32::MAX);
    assert_eq!(
        bus.take_ops(),
        vec![
            BusOp::DelayUs { micros: 0 },
            level(0, true),
            BusOp::DelayUs { micros: u32::MAX }
        ]
    );
}

#[test]
fn roles_may_be_bound_to_any_distinct_lines() {
    let pins = LcdPinMap { rs: 21, en: 20, d4: 3, d5: 2, d6: 1, d7: 0 };
    let mut bus = CharLCD::init(pins).unwrap();
    bus.take_ops();
    bus.data(0b1010);
    bus.enable(true);
    assert_eq!(
        bus.take_ops(),
        vec![
            BusOp::Level { pin: 3, high: false },
            BusOp::Level { pin: 2, high: true },
            BusOp::Level { pin: 1, high: false },
            BusOp::Level { pin: 0, high: true },
            BusOp::Level { pin: 20, high: true },
        ]
    );
}

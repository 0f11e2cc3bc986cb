//! Tests of the register model and the boot/panic control flow, run against
//! concrete memory spaces.

use bringup::boot::State;
use bringup::boot::boot;
use bringup::boot::halt;
use bringup::boot::init;
use bringup::gpio::Direction;
use bringup::gpio::MemSpace;
use bringup::gpio::Pin;
use bringup::gpio::Reg;
use bringup::gpio::RegWrite;
use bringup::gpio::Value;
use bringup::gpio::direction_write;
use bringup::gpio::set_direction;
use bringup::gpio::set_value;
use bringup::gpio::value_write;

const LED_MASK: u32 = 1 << 25;

#[test]
fn mem_space_starts_at_reset() {
    let m = MemSpace::new();
    assert_eq!(m.out_set, 0);
    assert_eq!(m.out_clr, 0);
    assert_eq!(m.oe_set, 0);
    assert_eq!(m.oe_clr, 0);
    assert_eq!(m.writes, 0);
}

#[test]
fn status_led_sits_at_bit_25() {
    assert_eq!(Pin::StatusLed.index(), 25);
}

#[test]
fn register_map_matches_the_port() {
    assert_eq!(Reg::OutSet.addr(), 0xd000_0014);
    assert_eq!(Reg::OutClr.addr(), 0xd000_0018);
    assert_eq!(Reg::OeSet.addr(), 0xd000_0024);
    assert_eq!(Reg::OeClr.addr(), 0xd000_0028);
}

#[test]
fn direction_output_plans_oe_set_store() {
    let w = direction_write(Pin::StatusLed, Direction::Output);
    assert_eq!(w, RegWrite { reg: Reg::OeSet, value: LED_MASK });
}

#[test]
fn direction_input_plans_oe_clr_store() {
    let w = direction_write(Pin::StatusLed, Direction::Input);
    assert_eq!(w, RegWrite { reg: Reg::OeClr, value: LED_MASK });
}

#[test]
fn level_high_plans_out_set_store() {
    let w = value_write(Pin::StatusLed, Value::High);
    assert_eq!(w, RegWrite { reg: Reg::OutSet, value: LED_MASK });
}

#[test]
fn level_low_plans_out_clr_store() {
    let w = value_write(Pin::StatusLed, Value::Low);
    assert_eq!(w, RegWrite { reg: Reg::OutClr, value: LED_MASK });
}

#[test]
fn set_direction_output_writes_exactly_bit_25_of_oe_set() {
    let mut m = MemSpace::new();
    set_direction(&mut m, Pin::StatusLed, Direction::Output);
    assert_eq!(m.oe_set, LED_MASK);
    assert_eq!(m.oe_clr, 0);
    assert_eq!(m.out_set, 0);
    assert_eq!(m.out_clr, 0);
    assert_eq!(m.writes, 1);
}

#[test]
fn set_direction_input_writes_oe_clr_only() {
    let mut m = MemSpace::new();
    set_direction(&mut m, Pin::StatusLed, Direction::Input);
    assert_eq!(m.oe_clr, LED_MASK);
    assert_eq!(m.oe_set, 0);
    assert_eq!(m.writes, 1);
}

#[test]
fn set_value_high_writes_out_set_and_never_out_clr() {
    let mut m = MemSpace::new();
    set_value(&mut m, Pin::StatusLed, Value::High);
    assert_eq!(m.out_set, LED_MASK);
    assert_eq!(m.out_clr, 0);
    assert_eq!(m.oe_set, 0);
    assert_eq!(m.oe_clr, 0);
    assert_eq!(m.writes, 1);
}

#[test]
fn set_value_low_writes_out_clr_and_never_out_set() {
    let mut m = MemSpace::new();
    set_value(&mut m, Pin::StatusLed, Value::Low);
    assert_eq!(m.out_clr, LED_MASK);
    assert_eq!(m.out_set, 0);
    assert_eq!(m.writes, 1);
}

#[test]
fn direction_then_value_touch_no_other_pins_bits() {
    let mut m = MemSpace::new();
    set_direction(&mut m, Pin::StatusLed, Direction::Output);
    set_value(&mut m, Pin::StatusLed, Value::High);
    assert_eq!(m.oe_set & !LED_MASK, 0);
    assert_eq!(m.out_set & !LED_MASK, 0);
    assert_eq!(m.oe_clr, 0);
    assert_eq!(m.out_clr, 0);
}

#[test]
fn repeated_stores_accumulate_idempotently() {
    let mut m = MemSpace::new();
    set_value(&mut m, Pin::StatusLed, Value::High);
    set_value(&mut m, Pin::StatusLed, Value::High);
    assert_eq!(m.out_set, LED_MASK);
    assert_eq!(m.writes, 2);
}

#[test]
fn boot_from_reset_lights_the_indicator() {
    let mut m = MemSpace::new();
    let s = boot(&mut m, 1_000);
    assert_eq!(s, State::Running);
    assert_eq!(m.oe_set & LED_MASK, LED_MASK);
    assert_eq!(m.out_set & LED_MASK, LED_MASK);
    assert_eq!(m.oe_set, LED_MASK);
    assert_eq!(m.out_set, LED_MASK);
    assert_eq!(m.oe_clr, 0);
    assert_eq!(m.out_clr, 0);
    // exactly the two indicator stores, none from the halt loop
    assert_eq!(m.writes, 2);
}

#[test]
fn init_is_the_normal_entry() {
    let mut m = MemSpace::new();
    let s = init(&mut m, 16);
    assert_eq!(s, State::Running);
    assert_eq!(m.oe_set, LED_MASK);
    assert_eq!(m.out_set, LED_MASK);
    assert_eq!(m.writes, 2);
}

#[test]
fn panic_forces_the_indicator_for_any_payload() {
    let mut m = MemSpace::new();
    let s = bringup::boot::panic(&mut m, "index out of range", 64);
    assert_eq!(s, State::Faulted);
    assert_eq!(m.oe_set & LED_MASK, LED_MASK);
    assert_eq!(m.out_set & LED_MASK, LED_MASK);
    assert_eq!(m.writes, 2);
}

#[test]
fn panic_final_state_ignores_the_payload() {
    let mut a = MemSpace::new();
    let mut b = MemSpace::new();
    bringup::boot::panic(&mut a, "", 0);
    bringup::boot::panic(&mut b, "stack overflow in the radio driver", 4096);
    assert_eq!(a, b);
}

#[test]
fn panic_ends_in_the_same_registers_as_boot() {
    let mut normal = MemSpace::new();
    let mut faulted = MemSpace::new();
    let s1 = boot(&mut normal, 32);
    let s2 = bringup::boot::panic(&mut faulted, "watchdog", 32);
    assert_eq!(normal, faulted);
    assert_eq!(s1, State::Running);
    assert_eq!(s2, State::Faulted);
}

#[test]
fn halt_writes_nothing_however_long_it_idles() {
    let mut m = MemSpace::new();
    set_direction(&mut m, Pin::StatusLed, Direction::Output);
    set_value(&mut m, Pin::StatusLed, Value::High);
    let before = m;
    halt(&mut m, 0);
    assert_eq!(m, before);
    halt(&mut m, 1_000_000);
    assert_eq!(m, before);
    assert_eq!(m.writes, 2);
}

//! Register access layer for the GPIO port.
//!
//! The port is driven through four fixed write-only registers with set/clear
//! semantics: writing `1` to bit `n` of a "set" register asserts that bit of
//! the underlying port state, writing `1` to the matching bit of the "clear"
//! register deasserts it, and written `0` bits are no-ops. There is therefore
//! no read-modify-write anywhere: every operation is a single whole-word
//! store of a one-bit mask.
//!
//! `MemSpace` is the model of that memory space: each register accumulates
//! the bits that have been asserted through it, and a counter records how
//! many stores were issued, so that contracts can say not only what a write
//! changed but also that nothing else was touched.

use vstd::prelude::*;

verus! {

/// Base address of the port's register block.
pub const SIO_BASE: u32 = 0xd000_0000;
/// Writing `1` to bit `n` drives pin `n` high.
pub const GPIO_OUT_SET_ADDR: u32 = SIO_BASE + 0x014;
/// Writing `1` to bit `n` drives pin `n` low.
pub const GPIO_OUT_CLR_ADDR: u32 = SIO_BASE + 0x018;
/// Writing `1` to bit `n` enables pin `n` as an output.
pub const GPIO_OE_SET_ADDR: u32 = SIO_BASE + 0x024;
/// Writing `1` to bit `n` disables pin `n` as an output (input mode).
pub const GPIO_OE_CLR_ADDR: u32 = SIO_BASE + 0x028;

/// Number of pins in the 32-bit port; valid pin indices are below this.
pub const PORT_WIDTH: u32 = 32;

/// A physical GPIO line, identified by its bit index within the port.
#[derive(Clone, Copy, Debug, PartialEq, Eq, Structural)]
pub enum Pin {
    /// The status indicator, wired to bit 25 of the port.
    StatusLed,
}

/// Direction of a pin: which of the two output-enable registers is written.
#[derive(Clone, Copy, Debug, PartialEq, Eq, Structural)]
pub enum Direction {
    Input,
    Output,
}

/// Logic level of a pin: which of the two output-value registers is written.
#[derive(Clone, Copy, Debug, PartialEq, Eq, Structural)]
pub enum Value {
    Low,
    High,
}

/// The four registers of the port, as a symbolic table.
#[derive(Clone, Copy, Debug, PartialEq, Eq, Structural)]
pub enum Reg {
    OutSet,
    OutClr,
    OeSet,
    OeClr,
}

/// Bit index of a pin within the port.
pub open spec fn pin_index(p: Pin) -> u32 {
    match p {
        Pin::StatusLed => 25,
    }
}

/// The one-bit mask a pin operation stores: bit `idx` set, all others clear.
pub open spec fn mask(idx: u32) -> u32 {
    1u32 << idx
}

/// Whether bit `i` of `x` is set.
pub open spec fn bit(x: u32, i: u32) -> bool {
    x & mask(i) != 0
}

/// Register written by `set_direction`: Output asserts output-enable bits,
/// Input deasserts them.
pub open spec fn direction_reg(d: Direction) -> Reg {
    match d {
        Direction::Output => Reg::OeSet,
        Direction::Input => Reg::OeClr,
    }
}

/// Register written by `set_value`: High asserts output bits, Low deasserts
/// them.
pub open spec fn value_reg(v: Value) -> Reg {
    match v {
        Value::High => Reg::OutSet,
        Value::Low => Reg::OutClr,
    }
}

/// Physical address of a register, per the port's register map.
pub open spec fn reg_addr(r: Reg) -> u32 {
    match r {
        Reg::OutSet => GPIO_OUT_SET_ADDR,
        Reg::OutClr => GPIO_OUT_CLR_ADDR,
        Reg::OeSet => GPIO_OE_SET_ADDR,
        Reg::OeClr => GPIO_OE_CLR_ADDR,
    }
}

impl Pin {
    /// Bit index of this pin; always a valid index for the 32-bit port.
    pub fn index(&self) -> (idx: u32)
        ensures
            idx == pin_index(*self),
            idx < PORT_WIDTH,
    {
        match self {
            Pin::StatusLed => 25,
        }
    }
}

impl Reg {
    /// Physical address this register is mapped at.
    pub fn addr(&self) -> (a: u32)
        ensures
            a == reg_addr(*self),
    {
        match self {
            Reg::OutSet => GPIO_OUT_SET_ADDR,
            Reg::OutClr => GPIO_OUT_CLR_ADDR,
            Reg::OeSet => GPIO_OE_SET_ADDR,
            Reg::OeClr => GPIO_OE_CLR_ADDR,
        }
    }
}

/// One store on the register bus: `value` written whole-word to `reg`.
#[derive(Clone, Copy, Debug, PartialEq, Eq, Structural)]
pub struct RegWrite {
    pub reg: Reg,
    pub value: u32,
}

/// Model of the port's register memory space.
///
/// Each field accumulates the bits asserted through the corresponding
/// register (written `0` bits are no-ops by hardware construction), and
/// `writes` counts the stores issued, so "no other register was touched"
/// and "no further writes occur" are both expressible.
#[derive(Clone, Copy, Debug, PartialEq, Eq, Structural)]
pub struct MemSpace {
    pub out_set: u32,
    pub out_clr: u32,
    pub oe_set: u32,
    pub oe_clr: u32,
    pub writes: u64,
}

/// The memory space after one store: the targeted register accumulates the
/// written bits, every other register is untouched, and the store is counted.
pub open spec fn write_sem(m: MemSpace, w: RegWrite) -> MemSpace {
    match w.reg {
        Reg::OutSet => MemSpace { out_set: m.out_set | w.value, writes: (m.writes + 1) as u64, ..m },
        Reg::OutClr => MemSpace { out_clr: m.out_clr | w.value, writes: (m.writes + 1) as u64, ..m },
        Reg::OeSet => MemSpace { oe_set: m.oe_set | w.value, writes: (m.writes + 1) as u64, ..m },
        Reg::OeClr => MemSpace { oe_clr: m.oe_clr | w.value, writes: (m.writes + 1) as u64, ..m },
    }
}

impl MemSpace {
    /// A memory space in its reset state: every register zero, no store yet.
    pub fn new() -> (m: MemSpace)
        ensures
            m == (MemSpace { out_set: 0, out_clr: 0, oe_set: 0, oe_clr: 0, writes: 0 }),
    {
        MemSpace { out_set: 0, out_clr: 0, oe_set: 0, oe_clr: 0, writes: 0 }
    }

    /// Issue one store to the model bus.
    pub fn write(&mut self, w: RegWrite)
        requires
            old(self).writes < u64::MAX,
        ensures
            *final(self) == write_sem(*old(self), w),
    {
        match w.reg {
            Reg::OutSet => self.out_set = self.out_set | w.value,
            Reg::OutClr => self.out_clr = self.out_clr | w.value,
            Reg::OeSet => self.oe_set = self.oe_set | w.value,
            Reg::OeClr => self.oe_clr = self.oe_clr | w.value,
        }
        self.writes = self.writes + 1;
    }
}

/// The memory space after `set_direction(pin-with-index-idx, d)`.
pub open spec fn direction_sem(m: MemSpace, idx: u32, d: Direction) -> MemSpace {
    write_sem(m, RegWrite { reg: direction_reg(d), value: mask(idx) })
}

/// The memory space after `set_value(pin-with-index-idx, v)`.
pub open spec fn value_sem(m: MemSpace, idx: u32, v: Value) -> MemSpace {
    write_sem(m, RegWrite { reg: value_reg(v), value: mask(idx) })
}

/// Translate a (pin, direction) pair into the single store it denotes:
/// the pin's one-bit mask, aimed at OE_SET for Output and OE_CLR for Input.
pub fn direction_write(pin: Pin, direction: Direction) -> (w: RegWrite)
    ensures
        w == (RegWrite { reg: direction_reg(direction), value: mask(pin_index(pin)) }),
{
    let value: u32 = 1u32 << pin.index();
    match direction {
        Direction::Output => RegWrite { reg: Reg::OeSet, value },
        Direction::Input => RegWrite { reg: Reg::OeClr, value },
    }
}

/// Translate a (pin, level) pair into the single store it denotes:
/// the pin's one-bit mask, aimed at OUT_SET for High and OUT_CLR for Low.
pub fn value_write(pin: Pin, level: Value) -> (w: RegWrite)
    ensures
        w == (RegWrite { reg: value_reg(level), value: mask(pin_index(pin)) }),
{
    let value: u32 = 1u32 << pin.index();
    match level {
        Value::High => RegWrite { reg: Reg::OutSet, value },
        Value::Low => RegWrite { reg: Reg::OutClr, value },
    }
}

/// Configure a pin's direction with one store to the matching
/// output-enable register; no other register is touched.
pub fn set_direction(mem: &mut MemSpace, pin: Pin, direction: Direction)
    requires
        old(mem).writes < u64::MAX,
    ensures
        *final(mem) == direction_sem(*old(mem), pin_index(pin), direction),
{
    let w = direction_write(pin, direction);
    mem.write(w);
}

/// Drive a pin's level with one store to the matching output-value
/// register; no other register is touched.
pub fn set_value(mem: &mut MemSpace, pin: Pin, value: Value)
    requires
        old(mem).writes < u64::MAX,
    ensures
        *final(mem) == value_sem(*old(mem), pin_index(pin), value),
{
    let w = value_write(pin, value);
    mem.write(w);
}

/// Or-ing a one-bit mask into a word asserts that bit.
proof fn lemma_or_mask_sets_bit(x: u32, p: u32)
    requires
        p < 32,
    ensures
        bit(x | (1u32 << p), p),
{
    assert((x | (1u32 << p)) & (1u32 << p) != 0) by (bit_vector)
        requires
            p < 32,
    ;
}

/// Or-ing a one-bit mask into a word leaves every other bit as it was.
proof fn lemma_or_mask_preserves_bit(x: u32, p: u32, q: u32)
    requires
        p < 32,
        q < 32,
        q != p,
    ensures
        bit(x | (1u32 << p), q) == bit(x, q),
{
    assert(((x | (1u32 << p)) & (1u32 << q)) == (x & (1u32 << q))) by (bit_vector)
        requires
            p < 32,
            q < 32,
            q != p,
    ;
}

/// Setting direction Output for a pin of any valid index `p` asserts exactly
/// bit `p` of OE_SET: that bit is written, every other bit of OE_SET keeps
/// its value, and no other register is touched (exactly one store, to
/// OE_SET).
pub proof fn lemma_set_direction_output_exact(m: MemSpace, p: u32)
    requires
        p < PORT_WIDTH,
        m.writes < u64::MAX,
    ensures
        ({
            let m2 = direction_sem(m, p, Direction::Output);
            bit(m2.oe_set, p)
                && (forall|q: u32| q < PORT_WIDTH && q != p ==> bit(m2.oe_set, q) == bit(m.oe_set, q))
                && m2.out_set == m.out_set
                && m2.out_clr == m.out_clr
                && m2.oe_clr == m.oe_clr
                && m2.writes == m.writes + 1
        }),
{
    let m2 = direction_sem(m, p, Direction::Output);
    lemma_or_mask_sets_bit(m.oe_set, p);
    assert forall|q: u32| q < PORT_WIDTH && q != p implies bit(m2.oe_set, q) == bit(m.oe_set, q) by {
        lemma_or_mask_preserves_bit(m.oe_set, p, q);
    }
}

/// Setting a pin's level writes exactly the pin's one-bit mask to OUT_SET
/// for High — and never to OUT_CLR — and the reverse for Low: the targeted
/// register accumulates exactly bit `p`, the opposite register and both
/// output-enable registers are untouched.
pub proof fn lemma_set_value_exact(m: MemSpace, p: u32, level: Value)
    requires
        p < PORT_WIDTH,
        m.writes < u64::MAX,
    ensures
        ({
            let m2 = value_sem(m, p, level);
            m2.oe_set == m.oe_set && m2.oe_clr == m.oe_clr && m2.writes == m.writes + 1
                && (level == Value::High ==> bit(m2.out_set, p) && m2.out_clr == m.out_clr
                    && (forall|q: u32| q < PORT_WIDTH && q != p ==> bit(m2.out_set, q) == bit(m.out_set, q)))
                && (level == Value::Low ==> bit(m2.out_clr, p) && m2.out_set == m.out_set
                    && (forall|q: u32| q < PORT_WIDTH && q != p ==> bit(m2.out_clr, q) == bit(m.out_clr, q)))
        }),
{
    let m2 = value_sem(m, p, level);
    match level {
        Value::High => {
            lemma_or_mask_sets_bit(m.out_set, p);
            assert forall|q: u32| q < PORT_WIDTH && q != p implies bit(m2.out_set, q) == bit(
                m.out_set,
                q,
            ) by {
                lemma_or_mask_preserves_bit(m.out_set, p, q);
            }
        },
        Value::Low => {
            lemma_or_mask_sets_bit(m.out_clr, p);
            assert forall|q: u32| q < PORT_WIDTH && q != p implies bit(m2.out_clr, q) == bit(
                m.out_clr,
                q,
            ) by {
                lemma_or_mask_preserves_bit(m.out_clr, p, q);
            }
        },
    }
}

/// Isolation: configuring the direction and then the level of a pin with
/// index `p` — whatever direction and level — leaves every bit belonging to
/// any other pin `q`, in all four registers, exactly as it was.
pub proof fn lemma_pin_isolation(m: MemSpace, p: u32, q: u32, d: Direction, level: Value)
    requires
        p < PORT_WIDTH,
        q < PORT_WIDTH,
        q != p,
        m.writes + 2 <= u64::MAX,
    ensures
        ({
            let m2 = value_sem(direction_sem(m, p, d), p, level);
            bit(m2.out_set, q) == bit(m.out_set, q)
                && bit(m2.out_clr, q) == bit(m.out_clr, q)
                && bit(m2.oe_set, q) == bit(m.oe_set, q)
                && bit(m2.oe_clr, q) == bit(m.oe_clr, q)
        }),
{
    let m1 = direction_sem(m, p, d);
    match d {
        Direction::Output => lemma_or_mask_preserves_bit(m.oe_set, p, q),
        Direction::Input => lemma_or_mask_preserves_bit(m.oe_clr, p, q),
    }
    match level {
        Value::High => lemma_or_mask_preserves_bit(m1.out_set, p, q),
        Value::Low => lemma_or_mask_preserves_bit(m1.out_clr, p, q),
    }
}

} // verus!

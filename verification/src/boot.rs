//! Boot/panic controller.
//!
//! Two entry points — normal boot and panic — converge on the same terminal
//! behaviour: configure the status indicator as an output, drive it high,
//! and park in the wait loop. `State` tracks the controller's progress;
//! `Running` and `Faulted` are terminal, and the halt primitive proves that
//! no register write happens once either is reached, however long the
//! machine idles.
//!
//! On hardware the wait loop never returns; the model runs it for a
//! caller-chosen number of simulated cycles and shows that the memory space
//! is untouched throughout, which is the whole observable content of
//! "never returns, writes nothing".

use vstd::prelude::*;

use crate::gpio::Direction;
use crate::gpio::MemSpace;
use crate::gpio::Pin;
use crate::gpio::Value;
use crate::gpio::direction_sem;
use crate::gpio::pin_index;
use crate::gpio::set_direction;
use crate::gpio::set_value;
use crate::gpio::value_sem;
use crate::gpio::bit;
use crate::gpio::lemma_set_direction_output_exact;
use crate::gpio::lemma_set_value_exact;

verus! {

/// Controller state. `Booting` is initial; `Running` and `Faulted` are
/// terminal: nothing transitions out of them.
#[derive(Clone, Copy, Debug, PartialEq, Eq, Structural)]
pub enum State {
    Booting,
    Running,
    Faulted,
}

/// The register transform both entry paths perform before halting: the
/// status indicator configured as an output, then driven high — two stores,
/// OE_SET then OUT_SET, each of exactly the indicator's one-bit mask.
pub open spec fn indicator_on(m: MemSpace) -> MemSpace {
    value_sem(
        direction_sem(m, pin_index(Pin::StatusLed), Direction::Output),
        pin_index(Pin::StatusLed),
        Value::High,
    )
}

/// The halt primitive: the wait loop, run for `cycles` simulated
/// wait-for-interrupt iterations. Whatever the elapsed simulated time, no
/// register write is observed: the memory space leaves exactly as it came.
pub fn halt(mem: &mut MemSpace, cycles: usize)
    ensures
        *final(mem) == *old(mem),
{
    let mut i: usize = 0;
    while i < cycles
        invariant
            i <= cycles,
        decreases cycles - i,
    {
        // On hardware this iteration is one wait-for-interrupt instruction;
        // it reads and writes no register either way.
        i = i + 1;
    }
}

/// Normal entry (`Booting` to `Running`): configure the indicator as an
/// output, drive it high, and enter the halt loop. Exactly the two indicator
/// stores are issued; nothing follows them.
pub fn boot(mem: &mut MemSpace, cycles: usize) -> (s: State)
    requires
        old(mem).writes + 2 <= u64::MAX,
    ensures
        *final(mem) == indicator_on(*old(mem)),
        s == State::Running,
{
    set_direction(mem, Pin::StatusLed, Direction::Output);
    set_value(mem, Pin::StatusLed, Value::High);
    halt(mem, cycles);
    State::Running
}

/// Entry point handed to the reset stub; performs the normal boot sequence.
pub fn init(mem: &mut MemSpace, cycles: usize) -> (s: State)
    requires
        old(mem).writes + 2 <= u64::MAX,
    ensures
        *final(mem) == indicator_on(*old(mem)),
        s == State::Running,
{
    boot(mem, cycles)
}

/// Panic entry (any state to `Faulted`): invoked on any unrecoverable fault
/// with a diagnostic payload that is not inspected — the final register
/// state is the same for every payload, and identical to the normal path's.
pub fn panic(mem: &mut MemSpace, _info: &str, cycles: usize) -> (s: State)
    requires
        old(mem).writes + 2 <= u64::MAX,
    ensures
        *final(mem) == indicator_on(*old(mem)),
        s == State::Faulted,
{
    set_direction(mem, Pin::StatusLed, Direction::Output);
    set_value(mem, Pin::StatusLed, Value::High);
    halt(mem, cycles);
    State::Faulted
}

/// Both entry points end in the same place: `boot` and `panic` each ensure
/// that the memory space becomes `indicator_on` of what it was — a transform
/// that does not depend on the panic payload — so their final register
/// states are identical. From any starting memory space, that shared
/// transform asserts the indicator's bit in OE_SET and in OUT_SET, issues
/// exactly two stores, and leaves both clear registers untouched.
pub proof fn lemma_entry_paths_converge(m: MemSpace)
    requires
        m.writes + 2 <= u64::MAX,
    ensures
        bit(indicator_on(m).oe_set, pin_index(Pin::StatusLed)),
        bit(indicator_on(m).out_set, pin_index(Pin::StatusLed)),
        indicator_on(m).out_clr == m.out_clr,
        indicator_on(m).oe_clr == m.oe_clr,
        indicator_on(m).writes == m.writes + 2,
{
    let p = pin_index(Pin::StatusLed);
    let m1 = direction_sem(m, p, Direction::Output);
    lemma_set_direction_output_exact(m, p);
    lemma_set_value_exact(m1, p, Value::High);
}

} // verus!

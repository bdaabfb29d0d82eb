//! The blink driver as a state machine: each step names the register write or
//! the busy-wait that the hardware loop performs next.
use vstd::prelude::*;
use crate::gpio::{
    clear_offset, configure_output, pin_mask, select_offset, set_offset, with_field,
    level_reg_spec, pin_mask_spec, select_shift_spec, CLEAR_OFFSET, NUM_PINS, PINS_PER_SELECT,
    SELECT_OFFSET, SELECT_OUTPUT, SET_OFFSET,
};

verus! {

/// Busy-wait iterations between two level changes of the LED.
pub const BLINK_DELAY: u32 = 500_000;

/// Where the steady-state loop stands.
#[derive(PartialEq, Eq, Structural, Clone, Copy, Debug)]
pub enum Phase {
    DriveHigh,
    HoldHigh,
    DriveLow,
    HoldLow,
}

/// What the hardware loop does next.
#[derive(PartialEq, Eq, Structural, Clone, Copy, Debug)]
pub enum Action {
    /// Write `value` to the register at byte offset `offset` from the GPIO base.
    Write { offset: usize, value: u32 },
    /// Busy-wait for `count` iterations.
    Delay { count: u32 },
}

/// Position of a phase in the cycle.
pub open spec fn phase_index(p: Phase) -> nat {
    match p {
        Phase::DriveHigh => 0,
        Phase::HoldHigh => 1,
        Phase::DriveLow => 2,
        Phase::HoldLow => 3,
    }
}

/// The phase at position `i % 4` of the cycle.
pub open spec fn phase_at(i: nat) -> Phase {
    if i % 4 == 0 {
        Phase::DriveHigh
    } else if i % 4 == 1 {
        Phase::HoldHigh
    } else if i % 4 == 2 {
        Phase::DriveLow
    } else {
        Phase::HoldLow
    }
}

/// The write that drives `pin` high.
pub open spec fn set_write(pin: u32) -> Action {
    Action::Write { offset: (SET_OFFSET + 4 * level_reg_spec(pin)) as usize, value: pin_mask_spec(pin) }
}

/// The write that drives `pin` low.
pub open spec fn clear_write(pin: u32) -> Action {
    Action::Write {
        offset: (CLEAR_OFFSET + 4 * level_reg_spec(pin)) as usize,
        value: pin_mask_spec(pin),
    }
}

/// The state of a blink driver: its pin, its delay and its phase.
pub struct BlinkerView {
    pub pin: u32,
    pub delay: u32,
    pub phase: Phase,
}

impl BlinkerView {
    /// The action of the current phase: the set write, a delay, the clear write,
    /// a delay.
    pub open spec fn action(self) -> Action {
        match self.phase {
            Phase::DriveHigh => set_write(self.pin),
            Phase::DriveLow => clear_write(self.pin),
            _ => Action::Delay { count: self.delay },
        }
    }

    /// The state `n` steps later.
    pub open spec fn after(self, n: nat) -> BlinkerView {
        BlinkerView { phase: phase_at(phase_index(self.phase) + n), ..self }
    }

    /// The actions of the next `n` steps.
    pub open spec fn trace(self, n: nat) -> Seq<Action> {
        Seq::new(n, |i: int| self.after(i as nat).action())
    }
}

/// A blink driver for one pin.
pub struct Blinker {
    pin: u32,
    delay: u32,
    phase: Phase,
}

impl View for Blinker {
    type V = BlinkerView;

    closed spec fn view(&self) -> BlinkerView {
        BlinkerView { pin: self.pin, delay: self.delay, phase: self.phase }
    }
}

impl Blinker {
    /// A driver for `pin` that waits `delay` iterations between level changes and
    /// starts by driving the pin high.
    pub fn new(pin: u32, delay: u32) -> (r: Blinker)
        requires
            pin < NUM_PINS,
        ensures
            r@ == (BlinkerView { pin, delay, phase: Phase::DriveHigh }),
    {
        Blinker { pin, delay, phase: Phase::DriveHigh }
    }

    /// The driver's pin.
    pub fn pin(&self) -> (r: u32)
        ensures
            r == self@.pin,
    {
        self.pin
    }

    /// The driver's busy-wait count.
    pub fn delay(&self) -> (r: u32)
        ensures
            r == self@.delay,
    {
        self.delay
    }

    /// The driver's phase.
    pub fn phase(&self) -> (r: Phase)
        ensures
            r == self@.phase,
    {
        self.phase
    }

    /// Byte offset of the function-select register that the start-up phase reads.
    pub fn select_register(&self) -> (r: usize)
        requires
            self@.pin < NUM_PINS,
        ensures
            r == SELECT_OFFSET + 4 * (self@.pin / PINS_PER_SELECT) as int,
    {
        select_offset(self.pin)
    }

    /// The start-up write, given the value `prior` that was read from the pin's
    /// function-select register: the same register, with the pin's field set to
    /// output mode and every other bit kept.
    pub fn configure(&self, prior: u32) -> (r: Action)
        requires
            self@.pin < NUM_PINS,
        ensures
            r == (Action::Write {
                offset: (SELECT_OFFSET + 4 * (self@.pin / PINS_PER_SELECT) as int) as usize,
                value: with_field(prior, select_shift_spec(self@.pin), SELECT_OUTPUT),
            }),
    {
        Action::Write { offset: select_offset(self.pin), value: configure_output(prior, self.pin) }
    }

    /// The action of the current phase; the driver moves on to the next phase.
    pub fn next_action(&mut self) -> (r: Action)
        requires
            old(self)@.pin < NUM_PINS,
        ensures
            r == old(self)@.action(),
            final(self)@ == old(self)@.after(1),
    {
        let pin = self.pin;
        match self.phase {
            Phase::DriveHigh => {
                self.phase = Phase::HoldHigh;
                Action::Write { offset: set_offset(pin), value: pin_mask(pin) }
            },
            Phase::HoldHigh => {
                self.phase = Phase::DriveLow;
                Action::Delay { count: self.delay }
            },
            Phase::DriveLow => {
                self.phase = Phase::HoldLow;
                Action::Write { offset: clear_offset(pin), value: pin_mask(pin) }
            },
            Phase::HoldLow => {
                self.phase = Phase::DriveHigh;
                Action::Delay { count: self.delay }
            },
        }
    }

    /// The actions of the next `steps` steps, in order; the driver moves on by
    /// `steps` phases.
    pub fn run(&mut self, steps: usize) -> (r: Vec<Action>)
        requires
            old(self)@.pin < NUM_PINS,
        ensures
            r@ == old(self)@.trace(steps as nat),
            final(self)@ == old(self)@.after(steps as nat),
    {
        let ghost start = self@;
        let mut out: Vec<Action> = Vec::new();
        let mut i: usize = 0;
        while i < steps
            invariant
                i <= steps,
                self@ == start.after(i as nat),
                start.pin < NUM_PINS,
                out@ == start.trace(i as nat),
            decreases steps - i,
        {
            let a = self.next_action();
            out.push(a);
            i = i + 1;
            assert(out@ =~= start.trace(i as nat));
        }
        out
    }
}

/// Number of times `a` occurs in `s`.
pub open spec fn occurrences(s: Seq<Action>, a: Action) -> nat
    decreases s.len(),
{
    if s.len() == 0 {
        0
    } else {
        occurrences(s.drop_last(), a) + if s.last() == a {
            1nat
        } else {
            0nat
        }
    }
}

proof fn lemma_prefix_counts(b: BlinkerView, k: nat)
    requires
        b.pin < NUM_PINS,
        b.phase == Phase::DriveHigh,
    ensures
        occurrences(b.trace(k), set_write(b.pin)) == (k + 3) / 4,
        occurrences(b.trace(k), clear_write(b.pin)) == (k + 1) / 4,
    decreases k,
{
    let sw = set_write(b.pin);
    let cw = clear_write(b.pin);
    assert(sw != cw);
    if k > 0 {
        let km = (k - 1) as nat;
        lemma_prefix_counts(b, km);
        assert(b.trace(k).drop_last() =~= b.trace(km));
        assert(b.trace(k).last() == b.after(km).action());
        assert(phase_index(b.phase) + km == km);
    }
}

/// The steady-state loop of a driver that starts by driving its pin high, run for
/// `cycles` cycles, issues the set write, a delay, the clear write and a delay in
/// turn: exactly `cycles` set writes and `cycles` clear writes, alternating, to
/// the pin's own bit, and no write to any other register.
pub proof fn lemma_steady_loop(b: BlinkerView, cycles: nat)
    requires
        b.pin < NUM_PINS,
        b.phase == Phase::DriveHigh,
    ensures
        ({
            let t = b.trace(4 * cycles);
            &&& t.len() == 4 * cycles
            &&& forall|i: int|
                0 <= i < t.len() ==> #[trigger] t[i] == if i % 4 == 0 {
                    set_write(b.pin)
                } else if i % 4 == 2 {
                    clear_write(b.pin)
                } else {
                    Action::Delay { count: b.delay }
                }
            &&& occurrences(t, set_write(b.pin)) == cycles
            &&& occurrences(t, clear_write(b.pin)) == cycles
            &&& forall|i: int|
                0 <= i < t.len() && (#[trigger] t[i]) is Write ==> t[i] == set_write(b.pin)
                    || t[i] == clear_write(b.pin)
        }),
{
    let t = b.trace(4 * cycles);
    lemma_prefix_counts(b, 4 * cycles);
    assert((4 * cycles + 3) / 4 == cycles);
    assert((4 * cycles + 1) / 4 == cycles);
    assert forall|i: int| 0 <= i < t.len() implies #[trigger] t[i] == if i % 4 == 0 {
        set_write(b.pin)
    } else if i % 4 == 2 {
        clear_write(b.pin)
    } else {
        Action::Delay { count: b.delay }
    } by {
        assert(phase_index(b.phase) + i as nat == i);
    }
}

} // verus!

//! A register bank that stands for the GPIO block: the function-select, set,
//! clear and level registers, addressed by byte offset from the base.
use vstd::prelude::*;
use crate::gpio::{
    bit, pin_mask_spec, level_reg_spec, CLEAR_OFFSET, LEVEL_OFFSET, NUM_LEVEL_REGS,
    NUM_PINS, NUM_SELECT_REGS, SELECT_OFFSET, SET_OFFSET,
};

verus! {

/// A register of the GPIO block with its index within its kind.
#[derive(PartialEq, Eq, Structural, Clone, Copy, Debug)]
pub enum Register {
    FunctionSelect(usize),
    PinSet(usize),
    PinClear(usize),
    PinLevel(usize),
}

/// The register at byte offset `offset` from the base, if any.
pub open spec fn decode_spec(offset: usize) -> Option<Register> {
    if offset % 4 != 0 {
        None
    } else if SELECT_OFFSET <= offset < SELECT_OFFSET + 4 * NUM_SELECT_REGS {
        Some(Register::FunctionSelect(((offset - SELECT_OFFSET) / 4) as usize))
    } else if SET_OFFSET <= offset < SET_OFFSET + 4 * NUM_LEVEL_REGS {
        Some(Register::PinSet(((offset - SET_OFFSET) / 4) as usize))
    } else if CLEAR_OFFSET <= offset < CLEAR_OFFSET + 4 * NUM_LEVEL_REGS {
        Some(Register::PinClear(((offset - CLEAR_OFFSET) / 4) as usize))
    } else if LEVEL_OFFSET <= offset < LEVEL_OFFSET + 4 * NUM_LEVEL_REGS {
        Some(Register::PinLevel(((offset - LEVEL_OFFSET) / 4) as usize))
    } else {
        None
    }
}

/// The register at byte offset `offset` from the base, if any.
pub fn decode(offset: usize) -> (r: Option<Register>)
    ensures
        r == decode_spec(offset),
{
    if offset % 4 != 0 {
        None
    } else if SELECT_OFFSET <= offset && offset < SELECT_OFFSET + 4 * NUM_SELECT_REGS {
        Some(Register::FunctionSelect((offset - SELECT_OFFSET) / 4))
    } else if SET_OFFSET <= offset && offset < SET_OFFSET + 4 * NUM_LEVEL_REGS {
        Some(Register::PinSet((offset - SET_OFFSET) / 4))
    } else if CLEAR_OFFSET <= offset && offset < CLEAR_OFFSET + 4 * NUM_LEVEL_REGS {
        Some(Register::PinClear((offset - CLEAR_OFFSET) / 4))
    } else if LEVEL_OFFSET <= offset && offset < LEVEL_OFFSET + 4 * NUM_LEVEL_REGS {
        Some(Register::PinLevel((offset - LEVEL_OFFSET) / 4))
    } else {
        None
    }
}

/// The contents of a register bank: six function-select registers and the two
/// registers of pin levels, bit `p % 32` of `levels[p / 32]` for pin `p`.
pub struct GpioView {
    pub select: Seq<u32>,
    pub levels: Seq<u32>,
}

impl GpioView {
    /// The bank holds one value for each register.
    pub open spec fn wf(self) -> bool {
        self.select.len() == NUM_SELECT_REGS && self.levels.len() == NUM_LEVEL_REGS
    }

    /// Whether pin `pin` is driven high.
    pub open spec fn pin_high(self, pin: u32) -> bool {
        bit(self.levels[level_reg_spec(pin)], pin % 32)
    }

    /// The bank after `value` is written at byte offset `offset`: a function-select
    /// register takes the value; a set register drives high the pins of the value's
    /// one bits and a clear register drives them low, the others keeping their
    /// level; a write anywhere else changes nothing.
    pub open spec fn write(self, offset: usize, value: u32) -> GpioView {
        match decode_spec(offset) {
            Some(Register::FunctionSelect(n)) => GpioView {
                select: self.select.update(n as int, value),
                levels: self.levels,
            },
            Some(Register::PinSet(n)) => GpioView {
                select: self.select,
                levels: self.levels.update(n as int, self.levels[n as int] | value),
            },
            Some(Register::PinClear(n)) => GpioView {
                select: self.select,
                levels: self.levels.update(n as int, self.levels[n as int] & !value),
            },
            _ => self,
        }
    }

    /// Whether a write at `offset` reaches a writable register.
    pub open spec fn writable(offset: usize) -> bool {
        match decode_spec(offset) {
            Some(Register::FunctionSelect(_)) | Some(Register::PinSet(_)) | Some(Register::PinClear(_)) => true,
            _ => false,
        }
    }

    /// What a read at byte offset `offset` returns: the value of a function-select
    /// or level register, and nothing for the write-only set and clear registers
    /// or an offset that holds no register.
    pub open spec fn read(self, offset: usize) -> Option<u32> {
        match decode_spec(offset) {
            Some(Register::FunctionSelect(n)) => Some(self.select[n as int]),
            Some(Register::PinLevel(n)) => Some(self.levels[n as int]),
            _ => None,
        }
    }
}

/// A register bank that stands for the GPIO block.
pub struct GpioBank {
    select: Vec<u32>,
    levels: Vec<u32>,
}

impl View for GpioBank {
    type V = GpioView;

    closed spec fn view(&self) -> GpioView {
        GpioView { select: self.select@, levels: self.levels@ }
    }
}

impl GpioBank {
    /// The bank is well formed.
    pub closed spec fn wf(&self) -> bool {
        self@.wf()
    }

    /// A bank whose registers all hold zero: every pin an input, every pin low.
    pub fn new() -> (r: GpioBank)
        ensures
            r.wf(),
            r@.select == Seq::new(NUM_SELECT_REGS as nat, |i: int| 0u32),
            r@.levels == Seq::new(NUM_LEVEL_REGS as nat, |i: int| 0u32),
    {
        let mut select: Vec<u32> = Vec::new();
        let mut i: usize = 0;
        while i < NUM_SELECT_REGS
            invariant
                i <= NUM_SELECT_REGS,
                select@ == Seq::new(i as nat, |j: int| 0u32),
            decreases NUM_SELECT_REGS - i,
        {
            select.push(0);
            i = i + 1;
            assert(select@ =~= Seq::new(i as nat, |j: int| 0u32));
        }
        let levels: Vec<u32> = vec![0, 0];
        assert(levels@ =~= Seq::new(NUM_LEVEL_REGS as nat, |i: int| 0u32));
        GpioBank { select, levels }
    }

    /// Reads the register at byte offset `offset`.
    pub fn read(&self, offset: usize) -> (r: Option<u32>)
        requires
            self.wf(),
        ensures
            r == self@.read(offset),
    {
        match decode(offset) {
            Some(Register::FunctionSelect(n)) => Some(self.select[n]),
            Some(Register::PinLevel(n)) => Some(self.levels[n]),
            _ => None,
        }
    }

    /// Writes `value` at byte offset `offset`; returns whether a writable register
    /// stands there.
    pub fn write(&mut self, offset: usize, value: u32) -> (r: bool)
        requires
            old(self).wf(),
        ensures
            final(self).wf(),
            final(self)@ == old(self)@.write(offset, value),
            r == GpioView::writable(offset),
    {
        match decode(offset) {
            Some(Register::FunctionSelect(n)) => {
                self.select.set(n, value);
                true
            },
            Some(Register::PinSet(n)) => {
                let v = self.levels[n] | value;
                self.levels.set(n, v);
                true
            },
            Some(Register::PinClear(n)) => {
                let v = self.levels[n] & !value;
                self.levels.set(n, v);
                true
            },
            _ => false,
        }
    }

    /// Whether pin `pin` is driven high.
    pub fn is_high(&self, pin: u32) -> (r: bool)
        requires
            self.wf(),
            pin < NUM_PINS,
        ensures
            r == self@.pin_high(pin),
    {
        let v = self.levels[(pin / 32) as usize];
        (v >> (pin % 32)) & 1 == 1
    }
}

proof fn lemma_bit_of_set_clear(x: u32, b: u32, i: u32)
    by (bit_vector)
    requires
        b < 32,
        i < 32,
    ensures
        bit(x | (1u32 << b), i) == (i == b || bit(x, i)),
        bit(x & !(1u32 << b), i) == (i != b && bit(x, i)),
{
}

/// A write of a pin's mask to its set register drives that pin high, and the
/// following write of the mask to its clear register drives it low; no other
/// pin's level and no function-select register changes on the way.
pub proof fn lemma_toggle(v: GpioView, pin: u32)
    requires
        v.wf(),
        pin < NUM_PINS,
    ensures
        ({
            let high = v.write((SET_OFFSET + 4 * level_reg_spec(pin)) as usize, pin_mask_spec(pin));
            let low = high.write((CLEAR_OFFSET + 4 * level_reg_spec(pin)) as usize, pin_mask_spec(pin));
            &&& high.wf() && low.wf()
            &&& high.pin_high(pin)
            &&& !low.pin_high(pin)
            &&& high.select == v.select && low.select == v.select
            &&& forall|p: u32| p < 64 && p != pin ==> #[trigger] high.pin_high(p) == v.pin_high(p)
            &&& forall|p: u32| p < 64 && p != pin ==> #[trigger] low.pin_high(p) == v.pin_high(p)
        }),
{
    let n = level_reg_spec(pin);
    let b = pin % 32;
    let high = v.write((SET_OFFSET + 4 * n) as usize, pin_mask_spec(pin));
    let low = high.write((CLEAR_OFFSET + 4 * n) as usize, pin_mask_spec(pin));
    assert(decode_spec((SET_OFFSET + 4 * n) as usize) == Some(Register::PinSet(n as usize)));
    assert(decode_spec((CLEAR_OFFSET + 4 * n) as usize) == Some(Register::PinClear(n as usize)));
    lemma_bit_of_set_clear(v.levels[n], b, b);
    lemma_bit_of_set_clear(v.levels[n] | (1u32 << b), b, b);
    assert(high.levels[n] == v.levels[n] | (1u32 << b));
    assert(low.levels[n] == (v.levels[n] | (1u32 << b)) & !(1u32 << b));
    assert(high.pin_high(pin));
    assert(!low.pin_high(pin));
    assert forall|p: u32| p < 64 && p != pin implies #[trigger] high.pin_high(p) == v.pin_high(p)
        by {
        if p / 32 == pin / 32 {
            lemma_bit_of_set_clear(v.levels[n], b, p % 32);
        }
    }
    assert forall|p: u32| p < 64 && p != pin implies #[trigger] low.pin_high(p) == v.pin_high(p)
        by {
        if p / 32 == pin / 32 {
            lemma_bit_of_set_clear(v.levels[n], b, p % 32);
            lemma_bit_of_set_clear(v.levels[n] | (1u32 << b), b, p % 32);
        }
    }
    assert(high.select == v.select && low.select == v.select);
}

} // verus!

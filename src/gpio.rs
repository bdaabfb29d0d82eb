//! The GPIO register map and the bit arithmetic on its registers.
use vstd::prelude::*;

verus! {

/// Physical base address of the GPIO block.
pub const GPIO_BASE: usize = 0x3F20_0000;

/// Number of GPIO pins of the block.
pub const NUM_PINS: u32 = 54;

/// The pin that drives the activity LED.
pub const LED_PIN: u32 = 47;

/// Pins controlled by one function-select register.
pub const PINS_PER_SELECT: u32 = 10;

/// Width in bits of one pin's function-select field.
pub const SELECT_FIELD_BITS: u32 = 3;

/// Mask of one function-select field before shifting.
pub const SELECT_FIELD_MASK: u32 = 0b111;

/// Function-select encoding of output mode.
pub const SELECT_OUTPUT: u32 = 0b001;

/// Number of function-select registers.
pub const NUM_SELECT_REGS: usize = 6;

/// Number of registers in each set, clear and level bank.
pub const NUM_LEVEL_REGS: usize = 2;

/// Offset of the first function-select register from the base.
pub const SELECT_OFFSET: usize = 0x00;

/// Offset of the first set register from the base.
pub const SET_OFFSET: usize = 0x1C;

/// Offset of the first clear register from the base.
pub const CLEAR_OFFSET: usize = 0x28;

/// Offset of the first level register from the base.
pub const LEVEL_OFFSET: usize = 0x34;

/// Bit position of the function-select field of `pin` within its register.
pub open spec fn select_shift_spec(pin: u32) -> u32 {
    ((pin % PINS_PER_SELECT) * SELECT_FIELD_BITS) as u32
}

/// Whether bit `i` of `v` is one.
pub open spec fn bit(v: u32, i: u32) -> bool {
    (v >> i) & 1 == 1
}

/// The register value `prior` with the 3-bit field at `shift` replaced by `field`.
pub open spec fn with_field(prior: u32, shift: u32, field: u32) -> u32 {
    (prior & !(SELECT_FIELD_MASK << shift)) | ((field & SELECT_FIELD_MASK) << shift)
}

/// Bit position of `pin`'s function-select field within its register.
pub fn select_shift(pin: u32) -> (r: u32)
    requires
        pin < NUM_PINS,
    ensures
        r == select_shift_spec(pin),
        r <= 27,
{
    (pin % PINS_PER_SELECT) * SELECT_FIELD_BITS
}

/// Byte offset from the base of the function-select register that holds `pin`.
pub fn select_offset(pin: u32) -> (r: usize)
    requires
        pin < NUM_PINS,
    ensures
        r == SELECT_OFFSET + 4 * (pin / PINS_PER_SELECT) as int,
{
    SELECT_OFFSET + 4 * (pin / PINS_PER_SELECT) as usize
}

/// The function-select register value `prior` with `pin`'s field set to output mode.
/// The read-modify-write of the start-up phase computes its written value here.
pub fn configure_output(prior: u32, pin: u32) -> (r: u32)
    requires
        pin < NUM_PINS,
    ensures
        r == with_field(prior, select_shift_spec(pin), SELECT_OUTPUT),
        (r >> select_shift_spec(pin)) & SELECT_FIELD_MASK == SELECT_OUTPUT,
        forall|i: u32|
            i < 32 && !(select_shift_spec(pin) <= i < select_shift_spec(pin) + SELECT_FIELD_BITS)
                ==> (bit(r, i) == bit(prior, i)),
{
    let shift = select_shift(pin);
    let r = (prior & !(SELECT_FIELD_MASK << shift)) | (SELECT_OUTPUT << shift);
    assert((r >> shift) & 7 == 1 && r == with_field(prior, shift, 1)) by (bit_vector)
        requires
            shift <= 27,
            r == (prior & !(7u32 << shift)) | (1u32 << shift),
    ;
    assert(forall|i: u32|
        i < 32 && !(shift <= i < shift + 3) ==> (#[trigger] ((r >> i) & 1)) == (prior >> i) & 1)
        by (bit_vector)
        requires
            shift <= 27,
            r == (prior & !(7u32 << shift)) | (1u32 << shift),
    ;
    r
}

/// Configuring a pin as output leaves every bit outside the pin's 3-bit field as it
/// was, whatever the register held before, and the field then reads output mode.
pub proof fn lemma_select_isolation(prior: u32, pin: u32)
    requires
        pin < NUM_PINS,
    ensures
        ({
            let shift = select_shift_spec(pin);
            let r = with_field(prior, shift, SELECT_OUTPUT);
            &&& (r >> shift) & SELECT_FIELD_MASK == SELECT_OUTPUT
            &&& forall|i: u32|
                i < 32 && !(shift <= i < shift + SELECT_FIELD_BITS) ==> (#[trigger] bit(r, i)
                    == bit(prior, i))
            &&& r & !(SELECT_FIELD_MASK << shift) == prior & !(SELECT_FIELD_MASK << shift)
        }),
{
    let shift = select_shift_spec(pin);
    assert(shift <= 27);
    let r = with_field(prior, shift, SELECT_OUTPUT);
    assert((r >> shift) & 7 == 1 && r & !(7u32 << shift) == prior & !(7u32 << shift))
        by (bit_vector)
        requires
            shift <= 27,
            r == (prior & !(7u32 << shift)) | ((1u32 & 7u32) << shift),
    ;
    assert(forall|i: u32|
        i < 32 && !(shift <= i < shift + 3) ==> (#[trigger] ((r >> i) & 1)) == (prior >> i) & 1)
        by (bit_vector)
        requires
            shift <= 27,
            r == (prior & !(7u32 << shift)) | ((1u32 & 7u32) << shift),
    ;
}

/// Configuring a pin as output twice gives the same register value as once.
pub proof fn lemma_configure_idempotent(prior: u32, pin: u32)
    requires
        pin < NUM_PINS,
    ensures
        with_field(with_field(prior, select_shift_spec(pin), SELECT_OUTPUT), select_shift_spec(pin), SELECT_OUTPUT)
            == with_field(prior, select_shift_spec(pin), SELECT_OUTPUT),
{
    let shift = select_shift_spec(pin);
    assert(shift <= 27);
    let once = with_field(prior, shift, SELECT_OUTPUT);
    let twice = with_field(once, shift, SELECT_OUTPUT);
    assert(twice == once) by (bit_vector)
        requires
            shift <= 27,
            once == (prior & !(7u32 << shift)) | ((1u32 & 7u32) << shift),
            twice == (once & !(7u32 << shift)) | ((1u32 & 7u32) << shift),
    ;
}

/// Index of the set, clear or level register that holds `pin`'s bit.
pub open spec fn level_reg_spec(pin: u32) -> int {
    (pin / 32) as int
}

/// Single-bit mask of `pin` within its set, clear or level register.
pub open spec fn pin_mask_spec(pin: u32) -> u32 {
    1u32 << (pin % 32)
}

/// Single-bit mask of `pin` within its set, clear or level register.
pub fn pin_mask(pin: u32) -> (r: u32)
    requires
        pin < NUM_PINS,
    ensures
        r == pin_mask_spec(pin),
        bit(r, pin % 32),
        forall|i: u32| i < 32 && i != pin % 32 ==> !bit(r, i),
{
    let b = pin % 32;
    assert(bit(1u32 << b, b)) by (bit_vector)
        requires
            b < 32,
    ;
    assert(forall|i: u32| i < 32 && i != b ==> !bit(1u32 << b, i)) by (bit_vector)
        requires
            b < 32,
    ;
    1u32 << b
}

/// Byte offset from the base of the set register that holds `pin`'s bit.
pub fn set_offset(pin: u32) -> (r: usize)
    requires
        pin < NUM_PINS,
    ensures
        r == SET_OFFSET + 4 * level_reg_spec(pin),
{
    SET_OFFSET + 4 * (pin / 32) as usize
}

/// Byte offset from the base of the clear register that holds `pin`'s bit.
pub fn clear_offset(pin: u32) -> (r: usize)
    requires
        pin < NUM_PINS,
    ensures
        r == CLEAR_OFFSET + 4 * level_reg_spec(pin),
{
    CLEAR_OFFSET + 4 * (pin / 32) as usize
}

} // verus!

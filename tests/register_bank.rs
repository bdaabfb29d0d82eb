use rpi3_blink::bank::{decode, GpioBank, Register};
use rpi3_blink::gpio::{clear_offset, pin_mask, set_offset, LED_PIN, NUM_PINS};

#[test]
fn decode_register_map() {
    assert_eq!(decode(0x00), Some(Register::FunctionSelect(0)));
    assert_eq!(decode(0x10), Some(Register::FunctionSelect(4)));
    assert_eq!(decode(0x14), Some(Register::FunctionSelect(5)));
    assert_eq!(decode(0x18), None);
    assert_eq!(decode(0x1C), Some(Register::PinSet(0)));
    assert_eq!(decode(0x20), Some(Register::PinSet(1)));
    assert_eq!(decode(0x24), None);
    assert_eq!(decode(0x28), Some(Register::PinClear(0)));
    assert_eq!(decode(0x2C), Some(Register::PinClear(1)));
    assert_eq!(decode(0x34), Some(Register::PinLevel(0)));
    assert_eq!(decode(0x38), Some(Register::PinLevel(1)));
    assert_eq!(decode(0x3C), None);
    assert_eq!(decode(0x11), None);
}

#[test]
fn new_bank_is_all_zero() {
    let bank = GpioBank::new();
    for off in [0x00usize, 0x04, 0x08, 0x0C, 0x10, 0x14, 0x34, 0x38] {
        assert_eq!(bank.read(off), Some(0));
    }
    for pin in 0..NUM_PINS {
        assert!(!bank.is_high(pin));
    }
}

#[test]
fn write_only_and_unmapped_reads() {
    let bank = GpioBank::new();
    assert_eq!(bank.read(0x1C), None);
    assert_eq!(bank.read(0x2C), None);
    assert_eq!(bank.read(0x18), None);
    assert_eq!(bank.read(0x13), None);
}

#[test]
fn select_write_then_read() {
    let mut bank = GpioBank::new();
    assert!(bank.write(0x10, 0x0020_0000));
    assert_eq!(bank.read(0x10), Some(0x0020_0000));
    assert_eq!(bank.read(0x0C), Some(0));
}

#[test]
fn writes_off_the_map_change_nothing() {
    let mut bank = GpioBank::new();
    assert!(!bank.write(0x34, 0xFFFF_FFFF));
    assert!(!bank.write(0x18, 0xFFFF_FFFF));
    assert!(!bank.write(0x21, 0xFFFF_FFFF));
    assert_eq!(bank.read(0x34), Some(0));
    for pin in 0..NUM_PINS {
        assert!(!bank.is_high(pin));
    }
}

#[test]
fn set_then_clear_toggles_only_target() {
    let mut bank = GpioBank::new();
    assert!(bank.write(set_offset(3), pin_mask(3)));
    assert!(bank.write(set_offset(46), pin_mask(46)));
    assert!(bank.write(0x10, 0x0020_0000));
    assert!(bank.write(set_offset(LED_PIN), pin_mask(LED_PIN)));
    assert!(bank.is_high(LED_PIN));
    assert_eq!(bank.read(0x38), Some((1 << 15) | (1 << 14)));
    for pin in 0..NUM_PINS {
        assert_eq!(bank.is_high(pin), pin == 3 || pin == 46 || pin == LED_PIN);
    }
    assert!(bank.write(clear_offset(LED_PIN), pin_mask(LED_PIN)));
    assert!(!bank.is_high(LED_PIN));
    for pin in 0..NUM_PINS {
        assert_eq!(bank.is_high(pin), pin == 3 || pin == 46);
    }
    assert_eq!(bank.read(0x10), Some(0x0020_0000));
}

#[test]
fn zero_writes_to_set_and_clear_do_nothing() {
    let mut bank = GpioBank::new();
    assert!(bank.write(set_offset(5), pin_mask(5)));
    assert!(bank.write(0x1C, 0));
    assert!(bank.write(0x28, 0));
    assert_eq!(bank.read(0x34), Some(1 << 5));
}

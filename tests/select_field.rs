use rpi3_blink::gpio::{
    clear_offset, configure_output, pin_mask, select_offset, select_shift, set_offset, LED_PIN,
};

fn seeds() -> Vec<u32> {
    let mut out = vec![0u32, 0xFFFF_FFFF, 0x0020_0000, 0x00E0_0000, 0xDEAD_BEEF];
    let mut x: u32 = 0x1234_5678;
    for _ in 0..2000 {
        x = x.wrapping_mul(1_664_525).wrapping_add(1_013_904_223);
        out.push(x);
    }
    out
}

#[test]
fn led_pin_layout() {
    assert_eq!(select_shift(LED_PIN), 21);
    assert_eq!(select_offset(LED_PIN), 0x10);
    assert_eq!(set_offset(LED_PIN), 0x20);
    assert_eq!(clear_offset(LED_PIN), 0x2C);
    assert_eq!(pin_mask(LED_PIN), 1 << 15);
}

#[test]
fn pin_layout_edges() {
    assert_eq!(select_shift(0), 0);
    assert_eq!(select_offset(0), 0x00);
    assert_eq!(select_shift(9), 27);
    assert_eq!(select_offset(9), 0x00);
    assert_eq!(select_offset(10), 0x04);
    assert_eq!(select_shift(53), 9);
    assert_eq!(select_offset(53), 0x14);
    assert_eq!(set_offset(31), 0x1C);
    assert_eq!(set_offset(32), 0x20);
    assert_eq!(clear_offset(31), 0x28);
    assert_eq!(pin_mask(31), 0x8000_0000);
    assert_eq!(pin_mask(32), 1);
    assert_eq!(pin_mask(53), 1 << 21);
}

#[test]
fn configure_output_exact_values() {
    assert_eq!(configure_output(0, LED_PIN), 0x0020_0000);
    assert_eq!(configure_output(0xFFFF_FFFF, LED_PIN), 0xFF3F_FFFF);
    assert_eq!(configure_output(0x00C0_0000, LED_PIN), 0x0020_0000);
    assert_eq!(configure_output(0xFFFF_FFFF, 9), 0xCFFF_FFFF);
    assert_eq!(configure_output(0, 40), 1);
}

#[test]
fn configure_output_keeps_other_fields() {
    for pin in [0u32, 9, 40, LED_PIN, 53] {
        let shift = select_shift(pin);
        let field = 0b111u32 << shift;
        for prior in seeds() {
            let r = configure_output(prior, pin);
            assert_eq!(r & !field, prior & !field);
            assert_eq!((r >> shift) & 0b111, 0b001);
        }
    }
}

#[test]
fn configure_output_twice_is_once() {
    for pin in [0u32, 9, 40, LED_PIN, 53] {
        for prior in seeds() {
            let once = configure_output(prior, pin);
            assert_eq!(configure_output(once, pin), once);
        }
    }
}

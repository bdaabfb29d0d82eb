use rpi3_blink::boot::{clear_of_stack, zero_region, STACK_SIZE, STACK_TOP};

fn check_zeroing(total: usize, start: usize, len: usize) {
    let mut mem: Vec<u8> = (0..total).map(|i| 0xA5u8 ^ (i as u8) | 1).collect();
    let before = mem.clone();
    zero_region(&mut mem, start, start + len);
    assert_eq!(mem.len(), before.len());
    for i in 0..total {
        if i >= start && i < start + len {
            assert_eq!(mem[i], 0, "byte {} of region {}..{}", i, start, start + len);
        } else {
            assert_eq!(mem[i], before[i], "byte {} outside {}..{}", i, start, start + len);
        }
    }
}

#[test]
fn zeroing_every_length() {
    for len in 0..40usize {
        for start in [0usize, 1, 3, 8] {
            check_zeroing(64, start, len);
        }
    }
}

#[test]
fn zeroing_empty_region_is_noop() {
    let mut mem = vec![0xFFu8; 16];
    zero_region(&mut mem, 5, 5);
    assert_eq!(mem, vec![0xFFu8; 16]);
    zero_region(&mut mem, 9, 4);
    assert_eq!(mem, vec![0xFFu8; 16]);
    let mut nothing: Vec<u8> = Vec::new();
    zero_region(&mut nothing, 0, 0);
    assert!(nothing.is_empty());
}

#[test]
fn zeroing_whole_image() {
    let mut mem = vec![0x5Au8; 37];
    zero_region(&mut mem, 0, 37);
    assert_eq!(mem, vec![0u8; 37]);
}

#[test]
fn stack_placement() {
    assert_eq!(STACK_TOP, 0x3801_0000);
    assert_eq!(STACK_SIZE, 0x1_0000);
    assert!(clear_of_stack(0x8_0000, 0x9_0000));
    assert!(clear_of_stack(0x3800_0000 - 0x100, 0x3800_0000));
    assert!(!clear_of_stack(0x3800_0000 - 0x100, 0x3800_0001));
    assert!(!clear_of_stack(0x3800_8000, 0x3800_9000));
    assert!(!clear_of_stack(0x3801_0000 - 1, 0x3802_0000));
    assert!(clear_of_stack(0x3801_0000, 0x3802_0000));
    assert!(clear_of_stack(0x3800_8000, 0x3800_8000));
}

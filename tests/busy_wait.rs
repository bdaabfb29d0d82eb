use rpi3_blink::blink::BLINK_DELAY;
use rpi3_blink::delay::delay;

#[test]
fn delay_counts_iterations() {
    assert_eq!(delay(0), 0);
    assert_eq!(delay(1), 1);
    assert_eq!(delay(1000), 1000);
    assert_eq!(delay(BLINK_DELAY), 500_000);
}

#[test]
fn delay_cost_is_monotonic() {
    let counts = [0u32, 1, 2, 10, 99, 100, 4096];
    for a in counts {
        for b in counts {
            if a <= b {
                assert!(delay(a) <= delay(b));
            }
        }
    }
}

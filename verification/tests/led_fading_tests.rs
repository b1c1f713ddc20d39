use ser_std::led_fading::{fade_duty_at, next_fade_step};

#[test]
fn fade_goes_up_then_down() {
    let duties: Vec<u32> = (0u64..12).map(|k| fade_duty_at(k, 4)).collect();
    assert_eq!(duties, vec![0, 1, 2, 3, 3, 2, 1, 0, 0, 1, 2, 3]);
    assert_eq!(fade_duty_at(0, 1), 0);
    assert_eq!(fade_duty_at(1, 1), 0);
    // u64::MAX % 32766 == 255, on the way up
    assert_eq!(fade_duty_at(u64::MAX, 16383), 255);
    assert_eq!(fade_duty_at(16383 + 5, 16383), 16377);
}

#[test]
fn fade_steps_stay_in_one_period() {
    let mut k = 0u64;
    let mut seen = Vec::new();
    for _ in 0..10 {
        seen.push(fade_duty_at(k, 3));
        k = next_fade_step(k, 3);
        assert!(k < 6);
    }
    assert_eq!(seen, vec![0, 1, 2, 2, 1, 0, 0, 1, 2, 2]);
    assert_eq!(next_fade_step(5, 3), 0);
    assert_eq!(next_fade_step(u64::MAX, 3), (u64::MAX % 6 + 1) % 6);
}

#[test]
fn fade_moves_one_duty_step_at_a_time() {
    let max = 16383u32;
    let mut prev = fade_duty_at(0, max);
    for k in 1u64..(4 * max as u64) {
        let d = fade_duty_at(k, max);
        assert!(d < max);
        assert!(d.abs_diff(prev) <= 1);
        prev = d;
    }
}

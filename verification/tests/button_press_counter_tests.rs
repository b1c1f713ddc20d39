use ser_std::button_press_counter::{gpio_int_callback, record_press};

#[test]
fn button_interrupt_raises_the_flag() {
    let mut flag = false;
    gpio_int_callback(&mut flag);
    assert!(flag);
    gpio_int_callback(&mut flag);
    assert!(flag);
}

#[test]
fn presses_are_counted_and_reported() {
    let mut count = 0u32;
    assert_eq!(record_press(&mut count), "Press Count 1");
    assert_eq!(record_press(&mut count), "Press Count 2");
    assert_eq!(count, 2);
    let mut count = u32::MAX;
    assert_eq!(record_press(&mut count), "Press Count 0");
    assert_eq!(count, 0);
}

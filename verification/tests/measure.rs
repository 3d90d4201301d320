use monitor_charts::measure::Fixed;

#[test]
fn scale_multiplies_and_rounds_down() {
    assert_eq!(Fixed { millis: 3000 }.scale(20), 60);
    assert_eq!(Fixed { millis: 250 }.scale(10), 2);
    assert_eq!(Fixed { millis: 1500 }.scale(7), 10);
    assert_eq!(Fixed { millis: 0 }.scale(500), 0);
    assert_eq!(Fixed { millis: 1000 }.scale(u32::MAX), u32::MAX);
    assert_eq!(Fixed { millis: 999 }.scale(1), 0);
}

#[test]
fn scale_is_capped() {
    assert_eq!(Fixed { millis: 2000 }.scale(u32::MAX), u32::MAX);
    assert_eq!(Fixed { millis: u32::MAX }.scale(u32::MAX), u32::MAX);
    assert_eq!(Fixed { millis: 1001 }.scale(u32::MAX), u32::MAX);
}

#[test]
fn shrink_divides_and_rounds_down() {
    assert_eq!(Fixed { millis: 2000 }.shrink(20), 10);
    assert_eq!(Fixed { millis: 3000 }.shrink(20), 6);
    assert_eq!(Fixed { millis: 250 }.shrink(10), 40);
    assert_eq!(Fixed { millis: 1000 }.shrink(u32::MAX), u32::MAX);
    assert_eq!(Fixed { millis: 1500 }.shrink(0), 0);
}

#[test]
fn shrink_by_zero_or_beyond_the_range_is_capped() {
    assert_eq!(Fixed { millis: 0 }.shrink(20), u32::MAX);
    assert_eq!(Fixed { millis: 0 }.shrink(0), u32::MAX);
    assert_eq!(Fixed { millis: 1 }.shrink(u32::MAX), u32::MAX);
    assert_eq!(Fixed { millis: 500 }.shrink(u32::MAX), u32::MAX);
}

#[test]
fn round_takes_a_half_up() {
    assert_eq!(Fixed { millis: 2500 }.round(), 3);
    assert_eq!(Fixed { millis: 2499 }.round(), 2);
    assert_eq!(Fixed { millis: 10000 }.round(), 10);
    assert_eq!(Fixed { millis: 0 }.round(), 0);
    assert_eq!(Fixed { millis: 499 }.round(), 0);
    assert_eq!(Fixed { millis: u32::MAX }.round(), 4294967);
    assert_eq!(Fixed::from_millis(3000), Fixed { millis: 3000 });
}

use segment_display::display::{Digit, Display, Frame, Segment};

fn segment_levels(s: &Segment) -> [bool; 8] {
    [s.a, s.b, s.c, s.d, s.e, s.f, s.g, s.dp]
}

fn digit_levels(d: &Digit) -> [bool; 4] {
    [d.one, d.two, d.three, d.four]
}

/// The truth table: levels a, b, c, d, e, f, g, dp for each decimal digit.
fn expected_pattern(digit: u8) -> [bool; 8] {
    match digit {
        0 => [true, true, true, true, true, true, false, false],
        1 => [false, true, true, false, false, false, false, false],
        2 => [true, true, false, true, true, false, true, false],
        3 => [true, true, true, true, false, false, true, false],
        4 => [false, true, true, false, false, true, true, false],
        5 => [true, false, true, true, false, true, true, false],
        6 => [true, false, true, true, true, true, true, false],
        7 => [true, true, true, false, false, false, false, false],
        8 => [true, true, true, true, true, true, true, false],
        9 => [true, true, true, true, false, true, true, false],
        _ => [false, false, false, false, false, false, false, false],
    }
}

fn render(value: i32) -> Vec<Frame> {
    let mut dsp = Display::new(Segment::new(), Digit::new());
    dsp.num_display(value)
}

#[test]
fn encode_matches_table_for_all_digits() {
    for digit in 0u8..10u8 {
        let mut s = Segment::new();
        s.display_single_number(digit);
        assert_eq!(segment_levels(&s), expected_pattern(digit));
    }
}

#[test]
fn encode_out_of_table_is_all_off() {
    for number in [10u8, 11u8, 99u8, 255u8] {
        let mut s = Segment::new();
        s.display_single_number(number);
        assert_eq!(segment_levels(&s), [false; 8]);
    }
}

#[test]
fn render_decomposes_1234_in_slot_order() {
    let frames = render(1234);
    assert_eq!(frames.len(), 4);
    assert_eq!(segment_levels(&frames[0].segment), expected_pattern(4));
    assert_eq!(segment_levels(&frames[1].segment), expected_pattern(3));
    assert_eq!(segment_levels(&frames[2].segment), expected_pattern(2));
    assert_eq!(segment_levels(&frames[3].segment), expected_pattern(1));
}

#[test]
fn render_decomposition_is_exact_for_all_values() {
    for value in 0i32..10000i32 {
        let frames = render(value);
        let digits = [
            (value % 10) as u8,
            ((value / 10) % 10) as u8,
            ((value / 100) % 10) as u8,
            (value / 1000) as u8,
        ];
        for slot in 0..4 {
            assert_eq!(
                segment_levels(&frames[slot].segment),
                expected_pattern(digits[slot])
            );
        }
    }
}

#[test]
fn render_enables_each_digit_exactly_once_active_low() {
    let frames = render(2026);
    assert_eq!(frames.len(), 4);
    for (slot, frame) in frames.iter().enumerate() {
        let levels = digit_levels(&frame.digit);
        for (line, level) in levels.iter().enumerate() {
            // Active-low: only the frame's own slot line is driven low.
            assert_eq!(*level, line != slot);
        }
    }
}

#[test]
fn render_holds_each_frame_one_millisecond() {
    for frame in render(7) {
        assert_eq!(frame.settle_ms, 1);
    }
}

#[test]
fn render_is_idempotent() {
    for value in [0, 7, 999, 1234, 9999] {
        let mut dsp = Display::new(Segment::new(), Digit::new());
        let first = dsp.num_display(value);
        let second = dsp.num_display(value);
        let fresh = render(value);
        assert_eq!(first, second);
        assert_eq!(first, fresh);
    }
}

#[test]
fn render_leaves_lines_at_last_frame() {
    let mut dsp = Display::new(Segment::new(), Digit::new());
    let frames = dsp.num_display(908);
    assert_eq!(dsp.segment, frames[3].segment);
    assert_eq!(dsp.digit, frames[3].digit);
}

#[test]
fn render_boundaries_do_not_panic() {
    let zero = render(0);
    let max = render(9999);
    assert_eq!(zero.len(), 4);
    assert_eq!(max.len(), 4);
    assert_eq!(segment_levels(&zero[0].segment), expected_pattern(0));
    assert_eq!(segment_levels(&zero[3].segment), expected_pattern(0));
    assert_eq!(segment_levels(&max[0].segment), expected_pattern(9));
    assert_eq!(segment_levels(&max[3].segment), expected_pattern(9));
}

#[test]
fn render_clamps_above_range_to_9999() {
    assert_eq!(render(10000), render(9999));
    assert_eq!(render(i32::MAX), render(9999));
}

#[test]
fn render_clamps_negative_to_0() {
    assert_eq!(render(-1), render(0));
    assert_eq!(render(-999), render(0));
    assert_eq!(render(i32::MIN), render(0));
}

use readout_bridge::status::Status;
use readout_bridge::values::{Attens, Hertz, PowerSetting, Sample, SweepConfig, Timestamp, DAC_TABLE_LEN};

#[test]
fn status_starts_disconnected() {
    let s = Status::new();
    assert_eq!(s.status_message, "Disconnected");
}

#[test]
fn status_default_is_new() {
    assert_eq!(Status::default(), Status::new());
}

#[test]
fn status_update_replaces_message() {
    let mut s = Status::new();
    s.update("Connected");
    assert_eq!(s.status_message, "Connected");
    s.update("Logging started");
    assert_eq!(s.status_message, "Logging started");
    s.update("");
    assert_eq!(s.status_message, "");
}

#[test]
fn hertz_is_reduced_to_lowest_terms() {
    let f = Hertz::new(6, 4);
    assert_eq!((f.numer(), f.denom()), (3, 2));
    let g = Hertz::new(6_000_000_000, 1_000);
    assert_eq!((g.numer(), g.denom()), (6_000_000, 1));
}

#[test]
fn hertz_denominator_is_made_positive() {
    let f = Hertz::new(1, -2);
    assert_eq!((f.numer(), f.denom()), (-1, 2));
    let g = Hertz::new(-9, -6);
    assert_eq!((g.numer(), g.denom()), (3, 2));
}

#[test]
fn hertz_zero_has_denominator_one() {
    let f = Hertz::new(0, 5);
    assert_eq!((f.numer(), f.denom()), (0, 1));
    let g = Hertz::new(0, -7);
    assert_eq!((g.numer(), g.denom()), (0, 1));
}

#[test]
fn hertz_whole_number_keeps_its_value() {
    let f = Hertz::new(6_020_000_000, 1);
    assert_eq!((f.numer(), f.denom()), (6_020_000_000, 1));
    let g = Hertz::new(-5, 1);
    assert_eq!((g.numer(), g.denom()), (-5, 1));
}

#[test]
fn hertz_equal_parts_reduce_to_one() {
    let f = Hertz::new(7, 7);
    assert_eq!((f.numer(), f.denom()), (1, 1));
}

#[test]
fn hertz_extreme_numerator_over_positive_denominator() {
    let f = Hertz::new(i64::MIN, 1);
    assert_eq!((f.numer(), f.denom()), (i64::MIN, 1));
    let g = Hertz::new(i64::MIN, 4);
    assert_eq!((g.numer(), g.denom()), (i64::MIN / 4, 1));
    let h = Hertz::new(i64::MIN, 6);
    assert_eq!((h.numer(), h.denom()), (i64::MIN / 2, 3));
    let k = Hertz::new(i64::MAX, i64::MAX);
    assert_eq!((k.numer(), k.denom()), (1, 1));
}

#[test]
fn hertz_can_reduce_tells_the_inputs_apart() {
    assert!(Hertz::can_reduce(1, 2));
    assert!(Hertz::can_reduce(i64::MIN, 3));
    assert!(Hertz::can_reduce(i64::MAX, -1));
    assert!(!Hertz::can_reduce(1, 0));
    assert!(!Hertz::can_reduce(0, 0));
    assert!(!Hertz::can_reduce(i64::MIN, -1));
    assert!(!Hertz::can_reduce(3, i64::MIN));
    assert!(!Hertz::can_reduce(-1, i64::MIN));
    assert!(!Hertz::can_reduce(i64::MIN, -3));
    assert!(!Hertz::can_reduce(i64::MIN, 0));
    assert!(Hertz::can_reduce(0, i64::MIN));
    assert!(Hertz::can_reduce(2, i64::MIN));
    assert!(Hertz::can_reduce(-6, i64::MIN));
    assert!(Hertz::can_reduce(i64::MIN, -2));
    assert!(Hertz::can_reduce(i64::MIN, i64::MIN));
    assert!(Hertz::can_reduce(i64::MAX, i64::MIN + 1));
}

#[test]
fn hertz_extreme_parts_that_still_reduce() {
    let f = Hertz::new(0, i64::MIN);
    assert_eq!((f.numer(), f.denom()), (0, 1));
    let f = Hertz::new(2, i64::MIN);
    assert_eq!((f.numer(), f.denom()), (-1, 1 << 62));
    let f = Hertz::new(-6, i64::MIN);
    assert_eq!((f.numer(), f.denom()), (3, 1 << 62));
    let f = Hertz::new(i64::MIN, -2);
    assert_eq!((f.numer(), f.denom()), (1 << 62, 1));
    let f = Hertz::new(i64::MIN, -6);
    assert_eq!((f.numer(), f.denom()), (1 << 62, 3));
    let f = Hertz::new(i64::MIN, i64::MIN);
    assert_eq!((f.numer(), f.denom()), (1, 1));
    let f = Hertz::new(i64::MAX, i64::MIN + 1);
    assert_eq!((f.numer(), f.denom()), (-1, 1));
}

#[test]
fn hertz_same_fraction_compares_equal() {
    assert_eq!(Hertz::new(2, 4), Hertz::new(1, 2));
    assert_ne!(Hertz::new(1, 3), Hertz::new(1, 2));
}

#[test]
fn table_length_is_fixed() {
    assert_eq!(DAC_TABLE_LEN, 524288);
}

#[test]
fn plain_values_hold_what_was_given() {
    let a = Attens { input: 10.0f32.to_bits(), output: 20.5f32.to_bits() };
    assert_eq!(f32::from_bits(a.input), 10.0);
    assert_eq!(f32::from_bits(a.output), 20.5);
    let t = Timestamp { secs: 1_700_000_000, nanos: 250 };
    assert_eq!((t.secs, t.nanos), (1_700_000_000, 250));
    let s = Sample { re: -3, im: 4 };
    assert_eq!((s.re, s.im), (-3, 4));
    let c = SweepConfig {
        freqs: vec![Hertz::new(1, 1)],
        settings: vec![PowerSetting { attens: a, fft_scale: 4095 }],
        average: 16,
    };
    assert_eq!(c.clone(), c);
    assert_eq!(c.settings[0].fft_scale, 4095);
}

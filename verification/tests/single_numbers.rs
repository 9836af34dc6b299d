use ticket_rag::single::Single;

fn num(x: f32) -> Single {
    Single::from_bits(x.to_bits())
}

fn samples() -> Vec<f32> {
    vec![
        0.0,
        -0.0,
        1.0,
        -1.0,
        0.5,
        0.999_999_9,
        1.000_000_1,
        1.5,
        -0.25,
        0.0001,
        1.0e-40,
        -1.0e-40,
        3.0e38,
        -3.0e38,
        f32::MIN_POSITIVE,
        f32::MAX,
        f32::MIN,
        f32::INFINITY,
        f32::NEG_INFINITY,
        f32::NAN,
        -f32::NAN,
    ]
}

#[test]
fn half_lies_in_the_unit_interval() {
    let half = num(0.5);
    assert!(half.is_in_unit_interval());
    assert_eq!(f32::from_bits(half.to_bits()), 0.5);
}

#[test]
fn bits_go_in_and_come_out_unchanged() {
    for x in samples() {
        assert_eq!(num(x).to_bits(), x.to_bits());
    }
    assert_eq!(Single::from_bits(0x3f80_0000).to_bits(), 1.0f32.to_bits());
}

#[test]
fn not_a_number_is_told_from_numbers() {
    for x in samples() {
        assert_eq!(num(x).is_not_a_number(), x.is_nan(), "{x}");
    }
}

#[test]
fn unit_interval_is_zero_to_one_with_both_ends() {
    for x in samples() {
        assert_eq!(num(x).is_in_unit_interval(), (0.0..=1.0).contains(&x), "{x}");
    }
    assert!(num(0.0).is_in_unit_interval());
    assert!(num(-0.0).is_in_unit_interval());
    assert!(num(1.0).is_in_unit_interval());
    assert!(!num(1.000_000_1).is_in_unit_interval());
    assert!(!num(-1.0e-40).is_in_unit_interval());
    assert!(!num(f32::NAN).is_in_unit_interval());
}

#[test]
fn order_is_the_order_of_the_numbers() {
    for a in samples() {
        for b in samples() {
            assert_eq!(num(a).is_le(&num(b)), a <= b, "{a} <= {b}");
            assert_eq!(num(a).is_lt(&num(b)), a < b, "{a} < {b}");
        }
    }
}

#[test]
fn order_on_a_sweep_of_bit_patterns() {
    let mut bits: u32 = 0;
    let mut previous = f32::from_bits(0);
    loop {
        let x = f32::from_bits(bits);
        assert_eq!(num(x).is_le(&num(previous)), x <= previous);
        assert_eq!(num(previous).is_lt(&num(x)), previous < x);
        assert_eq!(num(x).is_in_unit_interval(), (0.0..=1.0).contains(&x));
        previous = x;
        match bits.checked_add(0x0003_fff1) {
            Some(next) => bits = next,
            None => break,
        }
    }
}

#[test]
fn clamping_moves_into_the_unit_interval() {
    assert_eq!(num(0.25).clamped_to_unit().to_bits(), 0.25f32.to_bits());
    assert_eq!(num(1.0).clamped_to_unit().to_bits(), 1.0f32.to_bits());
    assert_eq!(num(1.5).clamped_to_unit().to_bits(), 1.0f32.to_bits());
    assert_eq!(num(f32::INFINITY).clamped_to_unit().to_bits(), 1.0f32.to_bits());
    assert_eq!(num(-0.5).clamped_to_unit().to_bits(), 0.0f32.to_bits());
    assert_eq!(num(f32::NEG_INFINITY).clamped_to_unit().to_bits(), 0.0f32.to_bits());
    assert_eq!(num(f32::NAN).clamped_to_unit().to_bits(), 0.0f32.to_bits());
    assert_eq!(num(-0.0).clamped_to_unit().to_bits(), (-0.0f32).to_bits());
    for x in samples() {
        assert!(num(x).clamped_to_unit().is_in_unit_interval());
    }
}

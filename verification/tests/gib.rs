use yourcloud_client::gib::{Gib, DEFAULT_GIB_BITS, MAX_REASONABLE_GIB};

fn samples() -> Vec<f64> {
    vec![
        0.0,
        -0.0,
        1.0,
        -1.0,
        40.0,
        0.5,
        0.1,
        1e-9,
        1e-10,
        f64::MIN_POSITIVE,
        5e-324,
        1.5,
        1023.999,
        1_048_576.0,
        1_048_576.0000000001,
        1_048_576.5,
        1e12,
        17_179_869_183.0,
        17_179_869_184.0,
        1e300,
        f64::MAX,
        f64::INFINITY,
        f64::NEG_INFINITY,
        f64::NAN,
        0.000_000_000_931_322_574_615_478_5,
        0.000_000_001_862_645_149_230_957,
        3.141592653589793,
    ]
}

#[test]
fn default_limit_is_forty() {
    assert_eq!(DEFAULT_GIB_BITS, 40.0f64.to_bits());
    assert_eq!(Gib { bits: DEFAULT_GIB_BITS }.to_bytes(), 42_949_672_960);
}

#[test]
fn zero_is_recognised() {
    for x in samples() {
        assert_eq!(Gib { bits: x.to_bits() }.is_zero(), x == 0.0, "{}", x);
    }
}

#[test]
fn positive_amounts_are_recognised() {
    for x in samples() {
        assert_eq!(Gib { bits: x.to_bits() }.is_positive(), x > 0.0, "{}", x);
    }
}

#[test]
fn unreasonable_amounts_are_recognised() {
    for x in samples() {
        assert_eq!(Gib { bits: x.to_bits() }.exceeds_reasonable(), x > MAX_REASONABLE_GIB as f64, "{}", x);
    }
}

#[test]
fn amounts_are_turned_into_bytes() {
    for x in samples() {
        let expected = (x * 1024.0 * 1024.0 * 1024.0) as u64;
        assert_eq!(Gib { bits: x.to_bits() }.to_bytes(), expected, "{}", x);
    }
}

#[test]
fn accepted_amounts_stay_in_range() {
    let largest = Gib { bits: (MAX_REASONABLE_GIB as f64).to_bits() };
    assert!(!largest.exceeds_reasonable());
    assert_eq!(largest.to_bytes(), 1 << 50);
}

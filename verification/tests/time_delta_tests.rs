use chain_ownership::time_delta::TimeDelta;

#[test]
fn from_secs_converts_to_micros() {
    assert_eq!(TimeDelta::from_secs(0), TimeDelta::zero());
    assert_eq!(TimeDelta::from_secs(1), TimeDelta::from_micros(1_000_000));
    assert_eq!(TimeDelta::from_secs(10), TimeDelta::from_micros(10_000_000));
}

#[test]
fn from_secs_saturates() {
    assert_eq!(TimeDelta::from_secs(u64::MAX), TimeDelta::max_value());
    assert_eq!(TimeDelta::from_secs(u64::MAX / 1_000_000 + 1), TimeDelta::max_value());
}

#[test]
fn saturating_add_clamps_at_max() {
    let five = TimeDelta::from_secs(5);
    let six = TimeDelta::from_secs(6);
    assert_eq!(five.saturating_add(six), TimeDelta::from_secs(11));
    assert_eq!(
        TimeDelta::max_value().saturating_add(five),
        TimeDelta::max_value()
    );
}

#[test]
fn saturating_sub_floors_at_zero() {
    let five = TimeDelta::from_secs(5);
    let six = TimeDelta::from_secs(6);
    assert_eq!(six.saturating_sub(five), TimeDelta::from_secs(1));
    assert_eq!(five.saturating_sub(six), TimeDelta::zero());
}

#[test]
fn saturating_mul_clamps_at_max() {
    let five = TimeDelta::from_secs(5);
    assert_eq!(five.saturating_mul(3), TimeDelta::from_secs(15));
    assert_eq!(five.saturating_mul(0), TimeDelta::zero());
    assert_eq!(five.saturating_mul(u64::MAX), TimeDelta::max_value());
}

use gateway_config::econ::{compat_amount, estimated_rewards};

#[test]
fn compat_amount_keeps_low_64_bits() {
    assert_eq!(compat_amount(0), 0);
    assert_eq!(compat_amount(12345), 12345);
    assert_eq!(compat_amount(u64::MAX as u128), u64::MAX);
    assert_eq!(compat_amount((1u128 << 64) + 5), 5);
    assert_eq!(compat_amount(u128::MAX), u64::MAX);
}

#[test]
fn estimated_rewards_narrow_each_amount() {
    let r = estimated_rewards(1_000_000, (1u128 << 64) + 7, 42);
    assert_eq!(r.total_node_reward, 1_000_000);
    assert_eq!(r.operator, 7);
    assert_eq!(r.delegates, 42);
}

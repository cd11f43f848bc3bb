use attorney_client::{calculate_fee, try_calculate_fee};

#[test]
fn fee_is_zero_for_zero_duration() {
    assert_eq!(calculate_fee(0), 0);
}

#[test]
fn fee_is_flat_within_first_hour() {
    assert_eq!(calculate_fee(1), 3500);
    assert_eq!(calculate_fee(30), 3500);
    assert_eq!(calculate_fee(59), 3500);
    assert_eq!(calculate_fee(60), 3500);
}

#[test]
fn partial_hours_beyond_first_are_not_rounded_up() {
    assert_eq!(calculate_fee(61), 3500);
    assert_eq!(calculate_fee(119), 3500);
    assert_eq!(calculate_fee(120), 5000);
    assert_eq!(calculate_fee(121), 5000);
    assert_eq!(calculate_fee(179), 5000);
    assert_eq!(calculate_fee(180), 6500);
    assert_eq!(calculate_fee(181), 6500);
}

#[test]
fn fee_adds_1500_per_whole_additional_hour() {
    for k in 0u64..5 {
        for r in [0u64, 1, 59] {
            assert_eq!(calculate_fee(60 + 60 * k + r), 3500 + 1500 * k);
        }
    }
}

#[test]
fn try_calculate_fee_agrees_where_the_fee_fits() {
    assert_eq!(try_calculate_fee(0), Some(0));
    assert_eq!(try_calculate_fee(60), Some(3500));
    assert_eq!(try_calculate_fee(120), Some(5000));
}

#[test]
fn try_calculate_fee_reports_unrepresentable_fees() {
    assert_eq!(try_calculate_fee(737869762948382039), Some(18446744073709551500));
    assert_eq!(try_calculate_fee(737869762948382040), None);
    assert_eq!(try_calculate_fee(u64::MAX), None);
}

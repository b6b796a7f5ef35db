use taxed_transfer::fees::{FeeSplit, compute_fee_split};

#[test]
fn split_of_100() {
    let r = compute_fee_split(100);
    assert_eq!(
        r,
        FeeSplit { tax: 2, developer_fee: 1, treasury_fee: 1, net_amount: 98 }
    );
}

#[test]
fn split_of_zero() {
    let r = compute_fee_split(0);
    assert_eq!(
        r,
        FeeSplit { tax: 0, developer_fee: 0, treasury_fee: 0, net_amount: 0 }
    );
}

#[test]
fn split_of_49_truncates_to_no_tax() {
    let r = compute_fee_split(49);
    assert_eq!(
        r,
        FeeSplit { tax: 0, developer_fee: 0, treasury_fee: 0, net_amount: 49 }
    );
}

#[test]
fn odd_tax_leaves_extra_unit_to_treasury() {
    // 150 / 50 = 3: developer gets 1, treasury absorbs 2.
    let r = compute_fee_split(150);
    assert_eq!(
        r,
        FeeSplit { tax: 3, developer_fee: 1, treasury_fee: 2, net_amount: 147 }
    );
}

#[test]
fn split_follows_exact_formulas() {
    for amount in [1u64, 7, 50, 51, 99, 100, 101, 12_345_678_901_234_567, u64::MAX] {
        let r = compute_fee_split(amount);
        let tax = amount / 50;
        assert_eq!(r.tax, tax);
        assert_eq!(r.developer_fee, tax / 2);
        assert_eq!(r.treasury_fee, tax - tax / 2);
        assert_eq!(r.net_amount, amount - tax);
    }
}

#[test]
fn split_conserves_amount() {
    for amount in [0u64, 1, 49, 50, 99, 100, 101, 999_999_999_999, u64::MAX - 1, u64::MAX] {
        let r = compute_fee_split(amount);
        assert_eq!(r.developer_fee + r.treasury_fee + r.net_amount, amount);
        assert_eq!(r.developer_fee + r.treasury_fee, r.tax);
    }
}

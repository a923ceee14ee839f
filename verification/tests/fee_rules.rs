use reddcore::errors::WalletError;
use reddcore::fee::{estimate_legacy_tx_fee, resolve_funds};

#[test]
fn fee_exact_single_input_two_outputs() {
    // size = 10 + 148 + 68 = 226 bytes; 226 * 1000 / 1000 rounded up = 226
    assert_eq!(estimate_legacy_tx_fee(1, 2, 1000).unwrap(), 226);
}

#[test]
fn fee_exact_rounds_up() {
    // size = 10 + 296 + 68 = 374 bytes; (374 * 500 + 999) / 1000 = 187
    assert_eq!(estimate_legacy_tx_fee(2, 2, 500).unwrap(), 187);
    // (226 * 1 + 999) / 1000 = 1: a tiny rate still pays one base unit
    assert_eq!(estimate_legacy_tx_fee(1, 2, 1).unwrap(), 1);
    // a zero rate pays nothing
    assert_eq!(estimate_legacy_tx_fee(1, 2, 0).unwrap(), 0);
}

#[test]
fn fee_overflow_reported() {
    assert_eq!(
        estimate_legacy_tx_fee(usize::MAX, 2, 1000),
        Err(WalletError::Overflow)
    );
    assert_eq!(
        estimate_legacy_tx_fee(1, 2, u64::MAX),
        Err(WalletError::Overflow)
    );
}

#[test]
fn funds_insufficient_reports_shortfall() {
    assert_eq!(
        resolve_funds(10_000, 9_500, 501),
        Err(WalletError::InsufficientFunds {
            available: 10_000,
            required: 10_001,
        })
    );
}

#[test]
fn funds_required_overflow_reported() {
    assert_eq!(
        resolve_funds(u64::MAX, u64::MAX, 1),
        Err(WalletError::Overflow)
    );
}

#[test]
fn funds_dust_remainder_folds_into_fee() {
    // remainder 1
    assert_eq!(resolve_funds(10_000, 9_499, 500).unwrap(), (0, 501));
    // remainder 545
    assert_eq!(resolve_funds(10_000, 8_955, 500).unwrap(), (0, 1_045));
}

#[test]
fn funds_remainder_at_dust_limit_becomes_change() {
    // remainder 546 stays a change output
    assert_eq!(resolve_funds(10_000, 8_954, 500).unwrap(), (546, 500));
    // a large remainder stays too
    assert_eq!(resolve_funds(10_000, 1_000, 500).unwrap(), (8_500, 500));
}

#[test]
fn funds_exact_cover_leaves_no_change() {
    assert_eq!(resolve_funds(10_000, 9_500, 500).unwrap(), (0, 500));
}

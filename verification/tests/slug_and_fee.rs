use blink_solana::slug::is_slug_of;
use blink_solana::{is_valid_slug, str_to_slug, withdrawal_fee, AppErrorCode, FULL_RATE, SLUG_LENGTH};

#[test]
fn slug_length_is_32() {
    assert_eq!(SLUG_LENGTH, 32);
}

#[test]
fn full_rate_is_ten_thousand_basis_points() {
    assert_eq!(FULL_RATE, 10000);
}

#[test]
fn letters_digits_and_hyphens_make_a_slug() {
    assert!(is_valid_slug("a"));
    assert!(is_valid_slug("Z"));
    assert!(is_valid_slug("0"));
    assert!(is_valid_slug("-"));
    assert!(is_valid_slug("my-pool-01"));
    assert!(is_valid_slug("azAZ09-"));
    assert!(is_valid_slug("ABCDEFGHIJKLMNOPQRSTUVWXYZabcdef"));
    assert!(is_valid_slug("ghijklmnopqrstuvwxyz0123456789--"));
}

#[test]
fn the_empty_string_is_no_slug() {
    assert!(!is_valid_slug(""));
}

#[test]
fn a_slug_has_at_most_32_characters() {
    assert!(is_valid_slug(&"a".repeat(32)));
    assert!(!is_valid_slug(&"a".repeat(33)));
    assert!(!is_valid_slug(&"a".repeat(100)));
}

#[test]
fn other_characters_make_no_slug() {
    for bad in ["a b", "a_b", "a.b", "a/b", "a+b", "pool!", " ", "\n", "a\0", "\u{e9}", "p\u{f6}l", "\u{4e2d}"] {
        assert!(!is_valid_slug(bad), "{:?}", bad);
    }
}

#[test]
fn the_neighbours_of_the_character_ranges_make_no_slug() {
    for bad in ["`", "{", "@", "[", "/", ":", ",", "."] {
        assert!(!is_valid_slug(bad), "{:?}", bad);
    }
}

#[test]
fn str_to_slug_pads_with_zeros() {
    let mut expected = [0u8; 32];
    expected[0] = b'a';
    expected[1] = b'-';
    expected[2] = b'1';
    assert_eq!(str_to_slug("a-1"), expected);
}

#[test]
fn str_to_slug_of_nothing_is_all_zeros() {
    assert_eq!(str_to_slug(""), [0u8; 32]);
}

#[test]
fn str_to_slug_of_32_bytes_is_those_bytes() {
    let slug = "ABCDEFGHIJKLMNOPQRSTUVWXYZabcdef";
    let data = str_to_slug(slug);
    assert_eq!(&data[..], slug.as_bytes());
}

#[test]
fn str_to_slug_takes_bytes_not_characters() {
    let data = str_to_slug("\u{e9}x");
    let mut expected = [0u8; 32];
    expected[0] = 0xc3;
    expected[1] = 0xa9;
    expected[2] = b'x';
    assert_eq!(data, expected);
}

#[test]
fn is_slug_of_tells_a_slug_from_its_encoding() {
    let data = str_to_slug("alpha-1");
    assert!(is_slug_of(&data, "alpha-1"));
    assert!(!is_slug_of(&data, "alpha-2"));
    assert!(!is_slug_of(&data, "alpha-"));
    assert!(!is_slug_of(&data, "alpha-11"));
    assert!(!is_slug_of(&[0u8; 32], ""));
    assert!(!is_slug_of(&str_to_slug("a b"), "a b"));
    let mut last = str_to_slug("alpha-1");
    last[31] = 1;
    assert!(!is_slug_of(&last, "alpha-1"));
}

#[test]
fn fee_of_a_million_at_250_basis_points() {
    assert_eq!(withdrawal_fee(1_000_000, 250), 25_000);
    assert_eq!(1_000_000 - withdrawal_fee(1_000_000, 250), 975_000);
}

#[test]
fn fee_of_seven_at_one_basis_point_is_nothing() {
    assert_eq!(withdrawal_fee(7, 1), 0);
    assert_eq!(7 - withdrawal_fee(7, 1), 7);
}

#[test]
fn fee_is_rounded_down() {
    assert_eq!(withdrawal_fee(9_999, 1), 0);
    assert_eq!(withdrawal_fee(10_000, 1), 1);
    assert_eq!(withdrawal_fee(19_999, 1), 1);
    assert_eq!(withdrawal_fee(3, 3_333), 0);
    assert_eq!(withdrawal_fee(3, 3_334), 1);
    assert_eq!(withdrawal_fee(1, 9_999), 0);
    assert_eq!(withdrawal_fee(101, 5_000), 50);
}

#[test]
fn fee_at_the_ends_of_the_range() {
    assert_eq!(withdrawal_fee(0, 0), 0);
    assert_eq!(withdrawal_fee(0, 10_000), 0);
    assert_eq!(withdrawal_fee(u64::MAX, 0), 0);
    assert_eq!(withdrawal_fee(u64::MAX, 10_000), u64::MAX);
    assert_eq!(withdrawal_fee(u64::MAX, 1), 1_844_674_407_370_955);
    assert_eq!(withdrawal_fee(u64::MAX, 9_999), 18_444_899_399_302_180_659);
    assert_eq!(withdrawal_fee(1, 10_000), 1);
}

#[test]
fn fee_and_net_make_the_amount() {
    for amount in [0u64, 1, 7, 9_999, 10_000, 1_000_000, u64::MAX - 1, u64::MAX] {
        for rate in [0u16, 1, 250, 3_333, 9_999, 10_000] {
            let fee = withdrawal_fee(amount, rate);
            assert!(fee <= amount);
            let net = amount - fee;
            assert_eq!(net + fee, amount);
            assert_eq!(fee as u128, amount as u128 * rate as u128 / 10_000);
        }
    }
}

#[test]
fn every_error_has_its_message() {
    assert_eq!(AppErrorCode::InvalidSlug.message(), "Invalid slug");
    assert_eq!(AppErrorCode::InvalidAcceptedAmount.message(), "Invalid accepted amount");
    assert_eq!(AppErrorCode::InvalidFeeRate.message(), "Invalid fee rate");
    assert_eq!(AppErrorCode::AlreadyExists.message(), "Record already exists");
    assert_eq!(AppErrorCode::DuplicateDeposit.message(), "User already deposited");
    assert_eq!(AppErrorCode::NothingToWithdraw.message(), "User not deposited");
    assert_eq!(AppErrorCode::CallerNotAdministrator.message(), "Caller is not the administrator");
    assert_eq!(AppErrorCode::VaultMismatch.message(), "Invalid vault");
    assert_eq!(AppErrorCode::AssetMismatch.message(), "Invalid mint");
    assert_eq!(AppErrorCode::Unauthorized.message(), "Unauthorized");
    assert_eq!(AppErrorCode::AccountNotInitialized.message(), "Account not initialized");
    assert_eq!(AppErrorCode::AmountOverflow.message(), "Amount overflow");
    assert_eq!(AppErrorCode::Transfer(17).message(), "Transfer failed");
}

use extractor_transformer::bignumeric::{IntoBigNumeric, TryIntoBigNumeric};
use extractor_transformer::integer::{DecimalText, IntoInteger, TryIntoInteger, TryIntoIntegerError};
use extractor_transformer::numeric::{IntoNumeric, TryIntoNumeric, TryIntoNumericError};
use extractor_transformer::text::{hex_with_prefix, opt_address_text, opt_fixed_bytes_text, trim_0x};
use extractor_transformer::timestamp::{IntoTimestamp, TryIntoTimestamp};
use extractor_transformer::transformation::block::format_fixed_bytes;
use extractor_transformer::word::{cap_bignumeric, within_bignumeric_range, U256};

const CAP: &str = "99999999999999999999999999999999999999";

fn two_to_the_200() -> U256 {
    U256 { limbs: [0, 0, 0, 256] }
}

#[test]
fn into_integer_keeps_small_numbers() {
    assert_eq!(5i64.into_integer(), 5);
    assert_eq!((-7i32).into_integer(), -7);
    assert_eq!(i16::MIN.into_integer(), -32768);
    assert_eq!((-1i8).into_integer(), -1);
    assert_eq!(u32::MAX.into_integer(), 4294967295);
    assert_eq!(65535u16.into_integer(), 65535);
    assert_eq!(255u8.into_integer(), 255);
    assert_eq!(255u8.into_integer_opt(), Some(255));
}

#[test]
fn infallible_types_always_convert() {
    assert_eq!(17u32.try_into_integer().unwrap(), 17);
    assert_eq!(17u32.try_into_integer_opt().unwrap(), Some(17));
}

#[test]
fn integer_coercion_accepts_the_whole_range() {
    assert_eq!(matches!(0i128.try_into_integer(), Ok(0)), true);
    assert!(matches!((i64::MAX as i128).try_into_integer(), Ok(i64::MAX)));
    assert!(matches!((i64::MIN as i128).try_into_integer(), Ok(i64::MIN)));
    assert!(matches!((i64::MAX as u64).try_into_integer(), Ok(i64::MAX)));
    assert!(matches!((i64::MAX as u128).try_into_integer(), Ok(i64::MAX)));
    assert!(matches!(12usize.try_into_integer(), Ok(12)));
    assert!(matches!(12u64.try_into_integer_opt(), Ok(Some(12))));
}

#[test]
fn integer_coercion_refuses_two_to_the_63() {
    let x: u64 = 1 << 63;
    assert!(matches!(x.try_into_integer(), Err(TryIntoIntegerError::AboveMax(v)) if v == x));
    assert!(matches!((x as u128).try_into_integer(), Err(TryIntoIntegerError::AboveMax(_))));
    assert!(matches!((x as i128).try_into_integer(), Err(TryIntoIntegerError::AboveMax(_))));
    assert!(matches!(u64::MAX.try_into_integer_opt(), Err(TryIntoIntegerError::AboveMax(_))));
}

#[test]
fn integer_coercion_refuses_below_min() {
    let x: i128 = (i64::MIN as i128) - 1;
    assert!(matches!(x.try_into_integer(), Err(TryIntoIntegerError::BelowMin(v)) if v == x));
}

#[test]
fn integer_coercion_of_wide_numbers_goes_by_bit_length() {
    let fits = U256 { limbs: [i64::MAX as u64, 0, 0, 0] };
    assert!(matches!(fits.try_into_integer(), Ok(i64::MAX)));
    let sixty_four_bits = U256 { limbs: [1 << 63, 0, 0, 0] };
    assert!(matches!(sixty_four_bits.try_into_integer(), Err(TryIntoIntegerError::AboveMax(_))));
    let high_limb = U256 { limbs: [1, 1, 0, 0] };
    assert!(matches!(high_limb.try_into_integer(), Err(TryIntoIntegerError::AboveMax(v)) if v == high_limb));
}

#[test]
fn integer_error_message_names_bound_and_value() {
    let above: TryIntoIntegerError<u64> = TryIntoIntegerError::AboveMax(u64::MAX);
    assert_eq!(
        above.message(),
        "Failed to convert into Integer (i64): AboveMax(18446744073709551615)"
    );
    let below: TryIntoIntegerError<i128> = TryIntoIntegerError::BelowMin(-9223372036854775809);
    assert_eq!(
        below.message(),
        "Failed to convert into Integer (i64): BelowMin(-9223372036854775809)"
    );
}

#[test]
fn decimal_text_of_numbers() {
    assert_eq!(0u64.to_decimal_text(), "0");
    assert_eq!(1234567890u64.to_decimal_text(), "1234567890");
    assert_eq!(u128::MAX.to_decimal_text(), "340282366920938463463374607431768211455");
    assert_eq!((-45i64).to_decimal_text(), "-45");
    assert_eq!(i128::MIN.to_decimal_text(), "-170141183460469231731687303715884105728");
    assert_eq!(77usize.to_decimal_text(), "77");
    assert_eq!(two_to_the_200().to_decimal_text(), "1606938044258990275541962092341162602522202993782792835301376");
}

#[test]
fn numeric_of_infallible_types() {
    assert_eq!(42i32.into_numeric(), "42");
    assert_eq!((-42i64).into_numeric(), "-42");
    assert_eq!(u64::MAX.into_numeric(), "18446744073709551615");
    assert_eq!(9usize.into_numeric(), "9");
    assert_eq!(9usize.into_numeric_opt(), Some("9".to_string()));
    assert_eq!(7u8.try_into_numeric().unwrap(), "7");
    assert_eq!(7u8.try_into_numeric_opt().unwrap(), Some("7".to_string()));
}

#[test]
fn numeric_bounds_are_28_nines() {
    let max: i128 = 9999999999999999999999999999;
    assert_eq!(max.try_into_numeric().unwrap(), "9999999999999999999999999999");
    assert_eq!((-max).try_into_numeric().unwrap(), "-9999999999999999999999999999");
    assert!(matches!((max + 1).try_into_numeric(), Err(TryIntoNumericError::TooBig(v)) if v == max + 1));
    assert!(matches!((-max - 1).try_into_numeric(), Err(TryIntoNumericError::TooSmall(v)) if v == -max - 1));
    let umax: u128 = 9999999999999999999999999999;
    assert_eq!(umax.try_into_numeric().unwrap(), "9999999999999999999999999999");
    assert!(matches!((umax + 1).try_into_numeric(), Err(TryIntoNumericError::TooBig(_))));
    assert!(matches!((umax + 1).try_into_numeric_opt(), Err(TryIntoNumericError::TooBig(_))));
    assert_eq!(5u128.try_into_numeric_opt().unwrap(), Some("5".to_string()));
}

#[test]
fn numeric_error_message_names_bound_and_value() {
    let big: TryIntoNumericError<u128> = TryIntoNumericError::TooBig(10000000000000000000000000000);
    assert_eq!(
        big.message(),
        "Failed to convert into Numeric (String): TooBig(10000000000000000000000000000)"
    );
    let small: TryIntoNumericError<i128> = TryIntoNumericError::TooSmall(-10000000000000000000000000000);
    assert_eq!(
        small.message(),
        "Failed to convert into Numeric (String): TooSmall(-10000000000000000000000000000)"
    );
}

#[test]
fn bignumeric_of_infallible_types() {
    assert_eq!(12u8.into_bignumeric(), "12");
    assert_eq!(u64::MAX.into_bignumeric(), "18446744073709551615");
    assert_eq!(u128::MAX.into_bignumeric(), "340282366920938463463374607431768211455");
    assert_eq!((-3i128).into_bignumeric(), "-3");
    assert_eq!(12u8.into_bignumeric_opt(), Some("12".to_string()));
    assert_eq!(3u128.into_bignumeric_opt(), Some("3".to_string()));
}

#[test]
fn bignumeric_of_wide_numbers() {
    let one = U256::from_u64(1);
    assert_eq!(one.try_into_bignumeric().unwrap(), "1");
    assert_eq!(one.try_into_bignumeric_opt().unwrap(), Some("1".to_string()));
    assert!(matches!(
        two_to_the_200().try_into_bignumeric(),
        Err(TryIntoNumericError::TooBig(v)) if v == two_to_the_200()
    ));
    assert!(matches!(
        two_to_the_200().try_into_bignumeric_opt(),
        Err(TryIntoNumericError::TooBig(v)) if v == two_to_the_200()
    ));
}

#[test]
fn timestamps_fit_signed_64_bits() {
    assert!(matches!(1700000000u64.try_into_timestamp(), Ok(1700000000)));
    assert!(matches!(1700000000u64.try_into_timestamp_opt(), Ok(Some(1700000000))));
    assert!(matches!(u64::MAX.try_into_timestamp(), Err(TryIntoIntegerError::AboveMax(_))));
    assert_eq!(5i64.into_timestamp(), 5);
    assert_eq!(5i64.into_timestamp_opt(), Some(5));
}

#[test]
fn bignumeric_capping_of_two_to_the_200() {
    let value = two_to_the_200();
    assert!(!within_bignumeric_range(&value));
    assert_eq!(cap_bignumeric(&value), CAP);
    assert_eq!(value.to_decimal(), "1606938044258990275541962092341162602522202993782792835301376");
}

#[test]
fn bignumeric_cap_is_the_last_value_in_range() {
    let cap = U256::from_u128(99999999999999999999999999999999999999);
    assert!(within_bignumeric_range(&cap));
    assert_eq!(cap_bignumeric(&cap), CAP);
    assert_eq!(cap.to_decimal(), CAP);
    let above = U256::from_u128(100000000000000000000000000000000000000);
    assert!(!within_bignumeric_range(&above));
    assert_eq!(cap_bignumeric(&above), CAP);
    assert_eq!(above.to_decimal(), "100000000000000000000000000000000000000");
    assert_ne!(cap_bignumeric(&above), above.to_decimal());
}

#[test]
fn capped_equals_lossless_in_range() {
    for n in [0u128, 1, 255, u64::MAX as u128, 1u128 << 96, (1u128 << 97) + 5] {
        let value = U256::from_u128(n);
        assert!(within_bignumeric_range(&value));
        assert_eq!(cap_bignumeric(&value), value.to_decimal());
        assert_eq!(value.to_decimal(), n.to_string());
    }
}

#[test]
fn u256_round_trips_through_u128() {
    assert_eq!(U256::zero().to_u128(), Some(0));
    assert_eq!(U256::from_u64(9).to_u128(), Some(9));
    assert_eq!(U256::from_u128(u128::MAX).to_u128(), Some(u128::MAX));
    assert_eq!(U256::from_u128(u128::MAX).limbs, [u64::MAX, u64::MAX, 0, 0]);
    assert_eq!(two_to_the_200().to_u128(), None);
    assert!(U256::from_u64(7).is_odd());
    assert!(!U256::from_u64(8).is_odd());
}

#[test]
fn u256_big_endian_bytes() {
    let bytes = U256::from_u64(0x0102).to_be_bytes_vec();
    assert_eq!(bytes.len(), 32);
    assert_eq!(bytes[31], 2);
    assert_eq!(bytes[30], 1);
    assert_eq!(bytes[0], 0);
    let high = U256 { limbs: [0, 0, 0, 0xff00000000000000] }.to_be_bytes_vec();
    assert_eq!(high[0], 0xff);
    assert_eq!(high[1], 0);
}

#[test]
fn u256_from_hex_digits() {
    assert_eq!(U256::from_hex("100"), Some(U256::from_u64(256)));
    assert_eq!(U256::from_hex("de0b6b3a7640000"), Some(U256::from_u64(1000000000000000000)));
    assert_eq!(U256::from_hex("FF"), Some(U256::from_u64(255)));
    assert_eq!(U256::from_hex("xyz"), None);
    assert_eq!(
        U256::from_hex("10000000000000000000000000000000000000000000000000000000000000000"),
        None
    );
    assert_eq!(
        U256::from_hex("100000000000000000000000000000000000000000000000000"),
        Some(two_to_the_200())
    );
}

#[test]
fn u256_from_hex_skips_underscores() {
    assert_eq!(U256::from_hex(""), Some(U256::zero()));
    assert_eq!(U256::from_hex("_"), Some(U256::zero()));
    assert_eq!(U256::from_hex("f_f"), Some(U256::from_u64(255)));
    assert_eq!(U256::from_hex("_1_"), Some(U256::from_u64(1)));
    assert_eq!(U256::from_hex(&"0".repeat(70)), Some(U256::zero()));
    assert_eq!(U256::from_hex(&format!("{}1", "0".repeat(70))), Some(U256::from_u64(1)));
    assert_eq!(U256::from_hex(&"f".repeat(64)), Some(U256 { limbs: [u64::MAX; 4] }));
    assert_eq!(U256::from_hex(&format!("1{}", "0".repeat(64))), None);
    assert_eq!(U256::from_hex(&format!("0{}", "f".repeat(64))), Some(U256 { limbs: [u64::MAX; 4] }));
    assert_eq!(U256::from_hex("g"), None);
    assert_eq!(U256::from_hex("+1"), None);
    assert_eq!(U256::from_hex("-1"), None);
    assert_eq!(U256::from_hex(" 1"), None);
    assert_eq!(U256::from_hex("0x1"), None);
    assert_eq!(U256::from_hex("\u{e9}"), None);
    assert_eq!(U256::from_hex("1\u{e9}"), None);
    assert_eq!(U256::from_hex("aBcDeF"), Some(U256::from_u64(0xabcdef)));
}

#[test]
fn hex_text_is_lower_case_with_prefix() {
    assert_eq!(hex_with_prefix(&vec![0x00, 0xab, 0xCD, 0x0f]), "0x00abcd0f");
    assert_eq!(hex_with_prefix(&vec![]), "0x");
    assert_eq!(format_fixed_bytes(&[0xde, 0xad, 0xbe, 0xef]), "0xdeadbeef");
    let mut word = [0u8; 32];
    word[31] = 1;
    assert_eq!(
        format_fixed_bytes(&word),
        "0x0000000000000000000000000000000000000000000000000000000000000001"
    );
    assert_eq!(opt_fixed_bytes_text(&Some([0x0au8, 0x0b])), Some("0x0a0b".to_string()));
    assert_eq!(opt_fixed_bytes_text::<2>(&None), None);
}

#[test]
fn addresses_are_checksummed() {
    let bytes = hex::decode("d8da6bf26964af9d7eed9e03e53415d37aa96045").unwrap();
    let mut address = [0u8; 20];
    address.copy_from_slice(&bytes);
    assert_eq!(
        opt_address_text(&Some(address)),
        Some("0xd8dA6BF26964aF9D7eEd9e03E53415D37aA96045".to_string())
    );
    assert_eq!(opt_address_text(&None), None);
}

#[test]
fn trim_0x_drops_only_a_leading_prefix() {
    assert_eq!(trim_0x("0x1f"), "1f");
    assert_eq!(trim_0x("1f"), "1f");
    assert_eq!(trim_0x("0x"), "");
    assert_eq!(trim_0x("a0x1"), "a0x1");
    assert_eq!(trim_0x("0X1f"), "0X1f");
}

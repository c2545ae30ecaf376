use datp::{
    code_at_reading, code_from_digest, compute_code, compute_code_now, generate_totp_secret, hotp, totp_raw,
    totp_raw_now, TotpError,
};

#[test]
fn test_totp_known_secret() {
    let secret = "JBSWY3DPEHPK3PXP";
    let code = totp_raw_now(secret, 30, 0);
    assert!(code.is_some());
    println!("TOTP code: {:?}", code.unwrap());
}

#[test]
fn test_totp_different_steps() {
    let secret = "JBSWY3DPEHPK3PXP";
    let code1 = totp_raw_now(secret, 30, 0);
    let code2 = totp_raw_now(secret, 60, 0);
    assert!(code1.is_some());
    assert!(code2.is_some());
    assert_ne!(code1, code2);
}

#[test]
fn test_totp_invalid_secret() {
    let secret = "invalid!!secret";
    let code = totp_raw_now(secret, 30, 0);
    assert!(code.is_none());
}

#[test]
fn test_generate_totp_secret() {
    let secret = generate_totp_secret(10);
    println!("Generated secret: {}", secret);
    assert!(!secret.is_empty());
}

#[test]
fn known_secret_at_fixed_time() {
    let code = totp_raw("JBSWY3DPEHPK3PXP", 30, 0, 1388865600);
    assert_eq!(code, Some(311209));
    assert_eq!(compute_code("JBSWY3DPEHPK3PXP", 30, 0, 1388865600), Ok(311209));
}

#[test]
fn fixed_time_is_repeatable() {
    let a = compute_code("JBSWY3DPEHPK3PXP", 30, 0, 1388865600);
    let b = compute_code("JBSWY3DPEHPK3PXP", 30, 0, 1388865600);
    assert_eq!(a, b);
}

#[test]
fn other_step_gives_other_code() {
    let c30 = compute_code("JBSWY3DPEHPK3PXP", 30, 0, 1388865600);
    let c60 = compute_code("JBSWY3DPEHPK3PXP", 60, 0, 1388865600);
    assert_eq!(c60, Ok(517887));
    assert_ne!(c30, c60);
}

#[test]
fn invalid_secret_is_reported() {
    assert_eq!(
        compute_code("invalid!!secret", 30, 0, 1388865600),
        Err(TotpError::InvalidSecret)
    );
    assert_eq!(totp_raw("invalid!!secret", 30, 0, 1388865600), None);
    assert_eq!(compute_code_now("invalid!!secret", 30, 0), Err(TotpError::InvalidSecret));
}

#[test]
fn zero_step_is_invalid_timing() {
    assert_eq!(
        compute_code("JBSWY3DPEHPK3PXP", 0, 0, 1388865600),
        Err(TotpError::InvalidTiming)
    );
    assert_eq!(compute_code_now("JBSWY3DPEHPK3PXP", 0, 0), Err(TotpError::InvalidTiming));
    assert_eq!(totp_raw_now("JBSWY3DPEHPK3PXP", 0, 0), None);
}

#[test]
fn time_before_epoch_start_is_invalid_timing() {
    assert_eq!(compute_code("JBSWY3DPEHPK3PXP", 30, 100, 99), Err(TotpError::InvalidTiming));
    assert_eq!(totp_raw("JBSWY3DPEHPK3PXP", 30, 100, 99), None);
}

#[test]
fn epoch_start_shifts_the_counter() {
    assert_eq!(
        compute_code("JBSWY3DPEHPK3PXP", 30, 1000, 1388866600),
        compute_code("JBSWY3DPEHPK3PXP", 30, 0, 1388865600)
    );
}

#[test]
fn current_code_is_six_digits() {
    let code = compute_code_now("JBSWY3DPEHPK3PXP", 30, 0).unwrap();
    assert!(code < 1_000_000);
}

#[test]
fn rfc4226_hotp_vectors() {
    let key = b"12345678901234567890";
    let expected: [u32; 10] =
        [755224, 287082, 359152, 969429, 338314, 254676, 287922, 162583, 399871, 520489];
    for (c, want) in expected.iter().enumerate() {
        assert_eq!(hotp(key, c as u64), Ok(*want));
    }
}

#[test]
fn rfc4226_truncation_of_published_digest() {
    // HMAC-SHA1 of counter 0 under the RFC 4226 key; truncation gives 0x4c93cf18.
    let digest: [u8; 20] = [
        0xcc, 0x93, 0xcf, 0x18, 0x50, 0x8d, 0x94, 0x93, 0x4c, 0x64, 0xb6, 0x5d, 0x8b, 0xa7,
        0x66, 0x7f, 0xb7, 0xcd, 0xe4, 0xb0,
    ];
    assert_eq!(code_from_digest(&digest), 1284755224 % 1_000_000);
    assert_eq!(code_from_digest(&digest), 755224);
}

#[test]
fn truncation_masks_top_bit_and_uses_last_offset() {
    let mut digest = [0u8; 20];
    digest[19] = 0x0f;
    digest[15] = 0xff;
    digest[16] = 0xff;
    digest[17] = 0xff;
    digest[18] = 0xff;
    // offset 15: bytes 15 to 18 are 0xff, and the top bit is cleared
    assert_eq!(code_from_digest(&digest), 0x7fffffff % 1_000_000);
    assert_eq!(code_from_digest(&digest), 483647);
    assert_eq!(code_from_digest(&[0u8; 20]), 0);
}

#[test]
fn empty_secret_is_still_a_key() {
    let code = compute_code("", 30, 0, 59).unwrap();
    assert!(code < 1_000_000);
}

#[test]
fn clock_before_epoch_is_reported() {
    assert_eq!(
        code_at_reading("JBSWY3DPEHPK3PXP", 30, 0, None),
        Err(TotpError::ClockUnavailable)
    );
    assert_eq!(code_at_reading("invalid!!secret", 30, 0, None), Err(TotpError::InvalidSecret));
    assert_eq!(code_at_reading("JBSWY3DPEHPK3PXP", 0, 0, None), Err(TotpError::InvalidTiming));
    assert_eq!(code_at_reading("JBSWY3DPEHPK3PXP", 30, 0, Some(1388865600)), Ok(311209));
}

#[test]
fn characters_outside_the_alphabet_are_rejected() {
    for s in ["JBSWY3DPEHPK3PX0", "jbswy3dpehpk3pxp", "JBSWY3DPEHPK3PX=", "JBSW Y3DP", "JBSWÄ"] {
        assert_eq!(compute_code(s, 0, 10, 5), Err(TotpError::InvalidSecret));
        assert_eq!(totp_raw(s, 30, 0, 1388865600), None);
    }
}

#[test]
fn same_counter_same_code() {
    assert_eq!(
        totp_raw("JBSWY3DPEHPK3PXP", 30, 0, 1388865600),
        totp_raw("JBSWY3DPEHPK3PXP", 1, 0, 46295520)
    );
}

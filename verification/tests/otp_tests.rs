use evoting_core::otp::{
    expiry_after, generate_otp, OtpError, OtpStore, OTP_LIFESPAN_SECONDS, OTP_MAX, OTP_MIN,
};

fn store_with(id: i32, email: &str, phone: &str, now: i64) -> OtpStore {
    let mut store = OtpStore::new();
    store.start_with(id, email.to_string(), phone.to_string(), now);
    store
}

#[test]
fn correct_codes_succeed_exactly_once() {
    let mut store = store_with(7, "123456", "654321", 1_000);
    assert!(store.is_pending(7));
    assert_eq!(store.verify(7, "123456", "654321", 1_100), Ok(()));
    assert!(!store.is_pending(7));
    assert_eq!(store.verify(7, "123456", "654321", 1_101), Err(OtpError::NotFound));
    assert_eq!(store.verify(7, "123456", "654321", 1_000), Err(OtpError::NotFound));
}

#[test]
fn late_attempt_expires_and_removes_the_challenge() {
    let mut store = store_with(7, "123456", "654321", 1_000);
    assert_eq!(store.verify(7, "123456", "654321", 1_301), Err(OtpError::Expired));
    assert!(!store.is_pending(7));
    assert_eq!(store.verify(7, "123456", "654321", 1_302), Err(OtpError::NotFound));
    assert_eq!(store.verify(7, "123456", "654321", 1_100), Err(OtpError::NotFound));
}

#[test]
fn late_attempt_with_wrong_codes_is_expired_too() {
    let mut store = store_with(7, "123456", "654321", 1_000);
    assert_eq!(store.verify(7, "000000", "000000", 5_000), Err(OtpError::Expired));
    assert!(!store.is_pending(7));
}

#[test]
fn wrong_codes_leave_the_challenge_for_a_later_attempt() {
    let mut store = store_with(7, "123456", "654321", 1_000);
    assert_eq!(store.verify(7, "123456", "000000", 1_010), Err(OtpError::Mismatch));
    assert_eq!(store.verify(7, "000000", "654321", 1_020), Err(OtpError::Mismatch));
    assert_eq!(store.verify(7, "654321", "123456", 1_030), Err(OtpError::Mismatch));
    assert!(store.is_pending(7));
    assert_eq!(store.verify(7, "123456", "654321", 1_300), Ok(()));
    assert!(!store.is_pending(7));
}

#[test]
fn wrong_codes_do_not_stretch_the_lifespan() {
    let mut store = store_with(7, "123456", "654321", 1_000);
    assert_eq!(store.verify(7, "123456", "000000", 1_299), Err(OtpError::Mismatch));
    assert_eq!(store.verify(7, "123456", "654321", 1_301), Err(OtpError::Expired));
}

#[test]
fn challenge_is_good_up_to_its_expiry_and_not_after() {
    let mut store = store_with(1, "111111", "222222", 1_000);
    assert_eq!(store.verify(1, "111111", "222222", 1_000 + OTP_LIFESPAN_SECONDS), Ok(()));
    let mut store = store_with(1, "111111", "222222", 1_000);
    assert_eq!(
        store.verify(1, "111111", "222222", 1_000 + OTP_LIFESPAN_SECONDS + 1),
        Err(OtpError::Expired)
    );
}

#[test]
fn codes_must_match_exactly() {
    let mut store = store_with(1, "123456", "654321", 0);
    assert_eq!(store.verify(1, "123456 ", "654321", 1), Err(OtpError::Mismatch));
    assert_eq!(store.verify(1, "0123456", "654321", 1), Err(OtpError::Mismatch));
    assert_eq!(store.verify(1, "", "", 1), Err(OtpError::Mismatch));
    assert_eq!(store.verify(1, "123456", "654321", 1), Ok(()));
}

#[test]
fn unknown_principal_is_not_found() {
    let mut store = OtpStore::new();
    assert!(!store.is_pending(3));
    assert_eq!(store.verify(3, "123456", "654321", 0), Err(OtpError::NotFound));
    let mut store = store_with(4, "123456", "654321", 0);
    assert_eq!(store.verify(3, "123456", "654321", 0), Err(OtpError::NotFound));
    assert!(store.is_pending(4));
}

#[test]
fn restart_replaces_the_challenge() {
    let mut store = store_with(7, "111111", "222222", 1_000);
    store.start_with(7, "333333".to_string(), "444444".to_string(), 1_200);
    assert_eq!(store.verify(7, "111111", "222222", 1_250), Err(OtpError::Mismatch));
    // the new challenge runs from the restart
    assert_eq!(store.verify(7, "333333", "444444", 1_500), Ok(()));
    assert_eq!(store.verify(7, "333333", "444444", 1_500), Err(OtpError::NotFound));
}

#[test]
fn principals_do_not_touch_each_other() {
    let mut store = store_with(1, "111111", "222222", 1_000);
    store.start_with(2, "333333".to_string(), "444444".to_string(), 1_000);
    assert_eq!(store.verify(1, "333333", "444444", 1_001), Err(OtpError::Mismatch));
    assert_eq!(store.verify(1, "111111", "222222", 1_002), Ok(()));
    assert!(store.is_pending(2));
    assert_eq!(store.verify(2, "333333", "444444", 2_000), Err(OtpError::Expired));
    assert!(!store.is_pending(2));
}

#[test]
fn pools_are_independent_stores() {
    let mut admins = store_with(1, "111111", "222222", 0);
    let mut voters = OtpStore::new();
    assert_eq!(voters.verify(1, "111111", "222222", 1), Err(OtpError::NotFound));
    assert_eq!(admins.verify(1, "111111", "222222", 1), Ok(()));
}

#[test]
fn expiry_is_a_lifespan_after_the_start() {
    assert_eq!(OTP_LIFESPAN_SECONDS, 300);
    assert_eq!(expiry_after(0), 300);
    assert_eq!(expiry_after(1_700_000_000), 1_700_000_300);
    assert_eq!(expiry_after(-1_000), -700);
    assert_eq!(expiry_after(i64::MIN), i64::MIN + 300);
}

#[test]
fn expiry_stops_at_the_last_instant() {
    assert_eq!(expiry_after(i64::MAX), i64::MAX);
    assert_eq!(expiry_after(i64::MAX - 299), i64::MAX);
    assert_eq!(expiry_after(i64::MAX - 300), i64::MAX);
    assert_eq!(expiry_after(i64::MAX - 301), i64::MAX - 1);
    let mut store = store_with(1, "111111", "222222", i64::MAX - 10);
    assert_eq!(store.verify(1, "111111", "222222", i64::MAX), Ok(()));
}

#[test]
fn generated_codes_are_six_digit_numbers() {
    for _ in 0..500 {
        let code = generate_otp();
        assert_eq!(code.len(), 6);
        assert!(code.chars().all(|c| c.is_ascii_digit()));
        let n: u32 = code.parse().unwrap();
        assert!(OTP_MIN <= n && n <= OTP_MAX);
        assert_ne!(code.as_bytes()[0], b'0');
    }
}

#[test]
fn generated_codes_vary() {
    let first = generate_otp();
    let mut differs = false;
    for _ in 0..200 {
        if generate_otp() != first {
            differs = true;
        }
    }
    assert!(differs);
}

#[test]
fn started_login_completes_with_the_codes_handed_out() {
    let mut store = OtpStore::new();
    let (email_code, phone_code) = store.start(9);
    assert_eq!(email_code.len(), 6);
    assert_eq!(phone_code.len(), 6);
    assert!(store.is_pending(9));
    assert_eq!(store.verify_now(9, &phone_code, "x"), Err(OtpError::Mismatch));
    assert_eq!(store.verify_now(9, &email_code, &phone_code), Ok(()));
    assert_eq!(store.verify_now(9, &email_code, &phone_code), Err(OtpError::NotFound));
}

#[test]
fn started_login_expires_a_lifespan_after_now() {
    let now = chrono::Utc::now().timestamp();
    let mut store = OtpStore::new();
    let (email_code, phone_code) = store.start(9);
    assert_eq!(store.verify(9, &email_code, "x", now + 200), Err(OtpError::Mismatch));
    assert_eq!(store.verify(9, &email_code, &phone_code, now + 400), Err(OtpError::Expired));
    let (email_code, phone_code) = store.start(9);
    assert_eq!(store.verify(9, &email_code, &phone_code, now + 200), Ok(()));
}

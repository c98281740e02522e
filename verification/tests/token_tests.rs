use evoting_core::principal::Role;
use evoting_core::token::{
    check_claims, expiry_claim_name, expiry_from, id_claim_name, TokenError, TokenIssuer,
    SESSION_TTL_SECONDS,
};

const NOW: i64 = 1_700_000_000;

fn issuer() -> TokenIssuer {
    TokenIssuer::new(b"a-secret-for-tests".to_vec())
}

#[test]
fn voter_token_is_refused_for_admin() {
    let issuer = issuer();
    let token = issuer.issue(5, Role::Voter, SESSION_TTL_SECONDS, NOW).unwrap();
    assert_eq!(issuer.verify(&token, Role::Voter, NOW + 1), Ok(5));
    assert_eq!(issuer.verify(&token, Role::Admin, NOW + 1), Err(TokenError::Invalid));
}

#[test]
fn token_is_good_for_its_own_role_only() {
    let issuer = issuer();
    let roles = [Role::Admin, Role::Voter, Role::Authority];
    for issued in roles {
        let token = issuer.issue(42, issued, 3600, NOW).unwrap();
        for expected in roles {
            let outcome = issuer.verify(&token, expected, NOW);
            if issued == expected {
                assert_eq!(outcome, Ok(42));
            } else {
                assert_eq!(outcome, Err(TokenError::Invalid));
            }
        }
    }
}

#[test]
fn token_is_valid_up_to_its_expiry() {
    let issuer = issuer();
    let token = issuer.issue(1, Role::Admin, 100, NOW).unwrap();
    assert_eq!(issuer.verify(&token, Role::Admin, NOW), Ok(1));
    assert_eq!(issuer.verify(&token, Role::Admin, NOW + 99), Ok(1));
    assert_eq!(issuer.verify(&token, Role::Admin, NOW + 100), Ok(1));
    assert_eq!(issuer.verify(&token, Role::Admin, NOW + 101), Err(TokenError::Expired));
    assert_eq!(issuer.verify(&token, Role::Admin, i64::MAX), Err(TokenError::Expired));
}

#[test]
fn token_of_the_wrong_role_is_invalid_even_when_expired() {
    let issuer = issuer();
    let token = issuer.issue(1, Role::Admin, 100, NOW).unwrap();
    assert_eq!(issuer.verify(&token, Role::Voter, NOW + 1_000), Err(TokenError::Invalid));
}

#[test]
fn session_lasts_a_day() {
    assert_eq!(SESSION_TTL_SECONDS, 24 * 60 * 60);
    let issuer = issuer();
    let before = chrono::Utc::now().timestamp();
    let token = issuer.issue_session(8, Role::Authority).unwrap();
    let after = chrono::Utc::now().timestamp();
    assert_eq!(issuer.verify_now(&token, Role::Authority), Ok(8));
    assert_eq!(issuer.verify_now(&token, Role::Voter), Err(TokenError::Invalid));
    assert_eq!(issuer.verify(&token, Role::Authority, before + SESSION_TTL_SECONDS), Ok(8));
    assert_eq!(
        issuer.verify(&token, Role::Authority, after + SESSION_TTL_SECONDS + 1),
        Err(TokenError::Expired)
    );
}

#[test]
fn token_of_another_secret_is_invalid() {
    let issuer = issuer();
    let other = TokenIssuer::new(b"another-secret".to_vec());
    let token = other.issue(1, Role::Admin, 100, NOW).unwrap();
    assert_eq!(other.verify(&token, Role::Admin, NOW), Ok(1));
    assert_eq!(issuer.verify(&token, Role::Admin, NOW), Err(TokenError::Invalid));
}

#[test]
fn tampered_or_malformed_token_is_invalid() {
    let issuer = issuer();
    let token = issuer.issue(1, Role::Admin, 100, NOW).unwrap();
    let mut tampered = token.clone();
    let last = tampered.pop().unwrap();
    tampered.push(if last == 'A' { 'B' } else { 'A' });
    assert_eq!(issuer.verify(&tampered, Role::Admin, NOW), Err(TokenError::Invalid));
    assert_eq!(issuer.verify("", Role::Admin, NOW), Err(TokenError::Invalid));
    assert_eq!(issuer.verify("a.b.c", Role::Admin, NOW), Err(TokenError::Invalid));
    assert_eq!(issuer.verify("not a token", Role::Admin, NOW), Err(TokenError::Invalid));
    let parts: Vec<&str> = token.split('.').collect();
    assert_eq!(parts.len(), 3);
    let unsigned = format!("{}.{}.", parts[0], parts[1]);
    assert_eq!(issuer.verify(&unsigned, Role::Admin, NOW), Err(TokenError::Invalid));
}

#[test]
fn token_is_a_signed_web_token_with_the_two_claims() {
    let issuer = issuer();
    let token = issuer.issue(77, Role::Voter, 50, NOW).unwrap();
    assert_ne!(token, "voter_id");
    assert_eq!(token.split('.').count(), 3);
    let mut validation = jsonwebtoken::Validation::new(jsonwebtoken::Algorithm::HS256);
    validation.validate_exp = false;
    let key = jsonwebtoken::DecodingKey::from_secret(b"a-secret-for-tests");
    let data = jsonwebtoken::decode::<serde_json::Value>(&token, &key, &validation).unwrap();
    assert_eq!(data.header.alg, jsonwebtoken::Algorithm::HS256);
    let claims = data.claims.as_object().unwrap();
    assert_eq!(claims.len(), 2);
    assert_eq!(claims.get("voter_id").and_then(|v| v.as_i64()), Some(77));
    assert_eq!(claims.get("exp").and_then(|v| v.as_i64()), Some(NOW + 50));
}

#[test]
fn issuing_is_repeatable() {
    let issuer = issuer();
    let a = issuer.issue(3, Role::Admin, 10, NOW).unwrap();
    let b = issuer.issue(3, Role::Admin, 10, NOW).unwrap();
    assert_eq!(a, b);
    let c = issuer.issue(4, Role::Admin, 10, NOW).unwrap();
    assert_ne!(a, c);
    let d = issuer.issue(3, Role::Admin, 11, NOW).unwrap();
    assert_ne!(a, d);
}

#[test]
fn token_without_expiry_is_invalid() {
    let issuer = issuer();
    let mut claims = serde_json::Map::new();
    claims.insert("admin_id".to_string(), serde_json::Value::from(1));
    let key = jsonwebtoken::EncodingKey::from_secret(b"a-secret-for-tests");
    let token = jsonwebtoken::encode(&jsonwebtoken::Header::default(), &claims, &key).unwrap();
    assert_eq!(issuer.verify(&token, Role::Admin, NOW), Err(TokenError::Invalid));
}

#[test]
fn token_whose_id_is_no_principal_id_is_invalid() {
    let issuer = issuer();
    let key = jsonwebtoken::EncodingKey::from_secret(b"a-secret-for-tests");
    let header = jsonwebtoken::Header::default();
    let mut claims = serde_json::Map::new();
    claims.insert("admin_id".to_string(), serde_json::Value::from(i64::from(i32::MAX) + 1));
    claims.insert("exp".to_string(), serde_json::Value::from(NOW + 10));
    let token = jsonwebtoken::encode(&header, &claims, &key).unwrap();
    assert_eq!(issuer.verify(&token, Role::Admin, NOW), Err(TokenError::Invalid));
    let mut claims = serde_json::Map::new();
    claims.insert("admin_id".to_string(), serde_json::Value::from("1"));
    claims.insert("exp".to_string(), serde_json::Value::from(NOW + 10));
    let token = jsonwebtoken::encode(&header, &claims, &key).unwrap();
    assert_eq!(issuer.verify(&token, Role::Admin, NOW), Err(TokenError::Invalid));
    let mut claims = serde_json::Map::new();
    claims.insert("admin_id".to_string(), serde_json::Value::from(i32::MAX));
    claims.insert("exp".to_string(), serde_json::Value::from(NOW + 10));
    let token = jsonwebtoken::encode(&header, &claims, &key).unwrap();
    assert_eq!(issuer.verify(&token, Role::Admin, NOW), Ok(i32::MAX));
}

#[test]
fn token_signed_with_another_algorithm_is_invalid() {
    let issuer = issuer();
    let key = jsonwebtoken::EncodingKey::from_secret(b"a-secret-for-tests");
    let header = jsonwebtoken::Header::new(jsonwebtoken::Algorithm::HS512);
    let mut claims = serde_json::Map::new();
    claims.insert("admin_id".to_string(), serde_json::Value::from(1));
    claims.insert("exp".to_string(), serde_json::Value::from(NOW + 10));
    let token = jsonwebtoken::encode(&header, &claims, &key).unwrap();
    assert_eq!(issuer.verify(&token, Role::Admin, NOW), Err(TokenError::Invalid));
}

#[test]
fn negative_ids_pass_through() {
    let issuer = issuer();
    let token = issuer.issue(-3, Role::Admin, 10, NOW).unwrap();
    assert_eq!(issuer.verify(&token, Role::Admin, NOW), Ok(-3));
    let token = issuer.issue(i32::MIN, Role::Admin, 10, NOW).unwrap();
    assert_eq!(issuer.verify(&token, Role::Admin, NOW), Ok(i32::MIN));
}

#[test]
fn expiry_before_the_epoch_makes_no_valid_token() {
    let issuer = issuer();
    let token = issuer.issue(1, Role::Admin, 10, -100).unwrap();
    assert_eq!(issuer.verify(&token, Role::Admin, -95), Err(TokenError::Invalid));
    let token = issuer.issue(1, Role::Admin, 100, -100).unwrap();
    assert_eq!(issuer.verify(&token, Role::Admin, -95), Ok(1));
    assert_eq!(issuer.verify(&token, Role::Admin, 0), Ok(1));
    assert_eq!(issuer.verify(&token, Role::Admin, 1), Err(TokenError::Expired));
}

#[test]
fn claims_are_checked_in_order() {
    assert_eq!(check_claims(None, 0), Err(TokenError::Invalid));
    assert_eq!(check_claims(Some((None, None)), 0), Err(TokenError::Invalid));
    assert_eq!(check_claims(Some((None, Some(10))), 0), Err(TokenError::Invalid));
    assert_eq!(check_claims(Some((Some(1), None)), 0), Err(TokenError::Invalid));
    assert_eq!(check_claims(Some((Some(1), Some(10))), 0), Ok(1));
    assert_eq!(check_claims(Some((Some(1), Some(10))), 10), Ok(1));
    assert_eq!(check_claims(Some((Some(1), Some(10))), 11), Err(TokenError::Expired));
    assert_eq!(check_claims(Some((Some(-1), Some(-10))), -20), Ok(-1));
    assert_eq!(check_claims(Some((Some(-1), Some(-10))), -9), Err(TokenError::Expired));
    let too_large = i64::from(i32::MAX) + 1;
    let too_small = i64::from(i32::MIN) - 1;
    assert_eq!(check_claims(Some((Some(too_large), Some(10))), 0), Err(TokenError::Invalid));
    assert_eq!(check_claims(Some((Some(too_small), Some(10))), 0), Err(TokenError::Invalid));
    // an id that is no principal id is invalid also after the expiry
    assert_eq!(check_claims(Some((Some(too_large), Some(10))), 11), Err(TokenError::Invalid));
    assert_eq!(check_claims(Some((Some(i64::from(i32::MAX)), Some(10))), 0), Ok(i32::MAX));
    assert_eq!(check_claims(Some((Some(i64::from(i32::MIN)), Some(10))), 0), Ok(i32::MIN));
}

#[test]
fn expiry_is_the_ttl_after_now() {
    assert_eq!(expiry_from(NOW, SESSION_TTL_SECONDS), NOW + 86_400);
    assert_eq!(expiry_from(0, 0), 0);
    assert_eq!(expiry_from(100, -30), 70);
    assert_eq!(expiry_from(-100, 30), -70);
}

#[test]
fn expiry_stays_within_the_instants_there_are() {
    assert_eq!(expiry_from(i64::MAX, 1), i64::MAX);
    assert_eq!(expiry_from(i64::MAX - 5, 5), i64::MAX);
    assert_eq!(expiry_from(i64::MAX - 5, 6), i64::MAX);
    assert_eq!(expiry_from(1, i64::MAX), i64::MAX);
    assert_eq!(expiry_from(i64::MIN, -1), i64::MIN);
    assert_eq!(expiry_from(-2, i64::MIN), i64::MIN);
    assert_eq!(expiry_from(i64::MIN, i64::MAX), -1);
}

#[test]
fn each_role_has_its_own_claim() {
    assert_eq!(id_claim_name(Role::Admin), "admin_id");
    assert_eq!(id_claim_name(Role::Voter), "voter_id");
    assert_eq!(id_claim_name(Role::Authority), "authority_id");
    assert_eq!(expiry_claim_name(), "exp");
}

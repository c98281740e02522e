use evoting_core::client::{
    check_keygen_params, conclude_keygen, conclude_setup, failure_report, find_nul, whole_key,
    whole_share, whole_shares, EngineError, EngineOp, RawAuthorityKey, RawKeyGenResult,
    RawMasterVerKey, RawSetupResult, SetupParam,
};
use evoting_core::engine::SetupParams;

fn text(s: &str) -> Option<String> {
    Some(s.to_string())
}

fn raw_setup(success: i32, error_message: Option<String>) -> RawSetupResult {
    RawSetupResult {
        success,
        error_message,
        pairing_param: text("pp"),
        prime_order: text("q"),
        g1: text("g1"),
        g2: text("g2"),
        h1: text("h1"),
        security_level: 256,
    }
}

fn raw_share(i: i32) -> RawAuthorityKey {
    RawAuthorityKey {
        authority_index: i,
        sgk1: text(&format!("sgk1-{}", i)),
        sgk2: text(&format!("sgk2-{}", i)),
        vkm1: text(&format!("vkm1-{}", i)),
        vkm2: text(&format!("vkm2-{}", i)),
        vkm3: text(&format!("vkm3-{}", i)),
    }
}

fn raw_key() -> RawMasterVerKey {
    RawMasterVerKey { alpha2: text("a2"), beta2: text("b2"), beta1: text("b1") }
}

fn raw_keygen(success: i32, error_message: Option<String>, shares: i32) -> RawKeyGenResult {
    RawKeyGenResult {
        success,
        error_message,
        mvk: Some(raw_key()),
        authority_keys: (1..=shares).map(raw_share).collect(),
    }
}

fn params() -> SetupParams {
    SetupParams {
        pairing_param: "pp".to_string(),
        prime_order: "q".to_string(),
        g1: "g1".to_string(),
        g2: "g2".to_string(),
        h1: "h1".to_string(),
        security_level: 256,
    }
}

#[test]
fn setup_answer_becomes_parameters() {
    let params = conclude_setup(Some(raw_setup(1, None))).unwrap();
    assert_eq!(params.pairing_param, "pp");
    assert_eq!(params.prime_order, "q");
    assert_eq!(params.g1, "g1");
    assert_eq!(params.g2, "g2");
    assert_eq!(params.h1, "h1");
    assert_eq!(params.security_level, 256);
    // any success flag but zero is success, and a stray message is ignored
    let params = conclude_setup(Some(raw_setup(-1, text("ignored")))).unwrap();
    assert_eq!(params.g2, "g2");
    let mut raw = raw_setup(7, None);
    raw.security_level = 80;
    assert_eq!(conclude_setup(Some(raw)).unwrap().security_level, 80);
}

#[test]
fn no_setup_answer_is_no_result() {
    let error = conclude_setup(None).unwrap_err();
    assert!(matches!(error, EngineError::NoResult));
    assert_eq!(error.message(EngineOp::Setup), "Setup function returned null");
}

#[test]
fn failed_setup_reports_the_engines_words() {
    let error = conclude_setup(Some(raw_setup(0, text("pairing init failed")))).unwrap_err();
    assert!(matches!(&error, EngineError::Reported(m) if m == "pairing init failed"));
    assert_eq!(error.message(EngineOp::Setup), "pairing init failed");
    let error = conclude_setup(Some(raw_setup(0, None))).unwrap_err();
    assert!(matches!(error, EngineError::Unexplained));
    assert_eq!(error.message(EngineOp::Setup), "Unknown error during setup");
    let error = conclude_setup(Some(raw_setup(0, text("")))).unwrap_err();
    assert!(matches!(&error, EngineError::Reported(m) if m.is_empty()));
}

#[test]
fn failed_setup_needs_no_parameters() {
    let raw = RawSetupResult {
        success: 0,
        error_message: text("bad level"),
        pairing_param: None,
        prime_order: None,
        g1: None,
        g2: None,
        h1: None,
        security_level: 0,
    };
    let error = conclude_setup(Some(raw)).unwrap_err();
    assert!(matches!(&error, EngineError::Reported(m) if m == "bad level"));
}

#[test]
fn setup_answer_with_a_part_left_out_is_no_result() {
    for missing in 0..5 {
        let mut raw = raw_setup(1, None);
        match missing {
            0 => raw.pairing_param = None,
            1 => raw.prime_order = None,
            2 => raw.g1 = None,
            3 => raw.g2 = None,
            _ => raw.h1 = None,
        }
        assert!(matches!(conclude_setup(Some(raw)), Err(EngineError::NoResult)));
    }
}

#[test]
fn keygen_answer_becomes_key_material() {
    let result = conclude_keygen(Some(raw_keygen(1, None, 3)), 2).unwrap();
    assert_eq!(result.threshold, 2);
    assert_eq!(result.mvk.alpha2, "a2");
    assert_eq!(result.mvk.beta2, "b2");
    assert_eq!(result.mvk.beta1, "b1");
    assert_eq!(result.authority_keys.len(), 3);
    for (position, key) in result.authority_keys.iter().enumerate() {
        let i = position as i32 + 1;
        assert_eq!(key.authority_index, i);
        assert_eq!(key.sgk1, format!("sgk1-{}", i));
        assert_eq!(key.sgk2, format!("sgk2-{}", i));
        assert_eq!(key.vkm1, format!("vkm1-{}", i));
        assert_eq!(key.vkm2, format!("vkm2-{}", i));
        assert_eq!(key.vkm3, format!("vkm3-{}", i));
    }
    let result = conclude_keygen(Some(raw_keygen(1, None, 0)), 5).unwrap();
    assert!(result.authority_keys.is_empty());
    assert_eq!(result.threshold, 5);
}

#[test]
fn keygen_failures_are_uniform() {
    let error = conclude_keygen(None, 2).unwrap_err();
    assert!(matches!(error, EngineError::NoResult));
    assert_eq!(error.message(EngineOp::KeyGen), "KeyGen function returned null");
    let error = conclude_keygen(Some(raw_keygen(0, text("threshold too large"), 0)), 2).unwrap_err();
    assert_eq!(error.message(EngineOp::KeyGen), "threshold too large");
    let error = conclude_keygen(Some(raw_keygen(0, None, 3)), 2).unwrap_err();
    assert!(matches!(error, EngineError::Unexplained));
    assert_eq!(error.message(EngineOp::KeyGen), "Unknown error during keygen");
}

#[test]
fn keygen_answer_with_a_part_left_out_is_no_result() {
    let mut raw = raw_keygen(1, None, 2);
    raw.mvk = None;
    assert!(matches!(conclude_keygen(Some(raw), 2), Err(EngineError::NoResult)));
    let mut raw = raw_keygen(1, None, 2);
    raw.mvk = Some(RawMasterVerKey { alpha2: text("a2"), beta2: None, beta1: text("b1") });
    assert!(matches!(conclude_keygen(Some(raw), 2), Err(EngineError::NoResult)));
    let mut raw = raw_keygen(1, None, 3);
    raw.authority_keys[2].vkm2 = None;
    assert!(matches!(conclude_keygen(Some(raw), 2), Err(EngineError::NoResult)));
    let mut raw = raw_keygen(1, None, 3);
    raw.authority_keys[0].sgk1 = None;
    assert!(matches!(conclude_keygen(Some(raw), 2), Err(EngineError::NoResult)));
    // a failure is reported as such even if parts are missing
    let mut raw = raw_keygen(0, text("oops"), 1);
    raw.mvk = None;
    raw.authority_keys[0].sgk1 = None;
    assert!(matches!(conclude_keygen(Some(raw), 2), Err(EngineError::Reported(m)) if m == "oops"));
}

#[test]
fn whole_parts_are_told_from_partial_ones() {
    let share = whole_share(&raw_share(3)).unwrap();
    assert_eq!(share.authority_index, 3);
    assert_eq!(share.vkm3, "vkm3-3");
    let mut partial = raw_share(3);
    partial.sgk2 = None;
    assert!(whole_share(&partial).is_none());
    let key = whole_key(&raw_key()).unwrap();
    assert_eq!(key.beta1, "b1");
    assert!(whole_key(&RawMasterVerKey { alpha2: None, beta2: text("b"), beta1: text("b") })
        .is_none());
    assert!(whole_key(&RawMasterVerKey { alpha2: text("a"), beta2: text("b"), beta1: None })
        .is_none());
    let shares = whole_shares(&vec![raw_share(1), raw_share(2)]).unwrap();
    assert_eq!(shares.len(), 2);
    assert_eq!(shares[0].sgk1, "sgk1-1");
    assert_eq!(shares[1].sgk1, "sgk1-2");
    assert!(whole_shares(&vec![raw_share(1), partial]).is_none());
    assert!(whole_shares(&vec![]).unwrap().is_empty());
}

#[test]
fn failure_report_keeps_the_words() {
    assert!(matches!(failure_report(None), EngineError::Unexplained));
    assert!(matches!(failure_report(text("x")), EngineError::Reported(m) if m == "x"));
}

#[test]
fn first_nul_is_found() {
    assert_eq!(find_nul(""), None);
    assert_eq!(find_nul("abc"), None);
    assert_eq!(find_nul("\0"), Some(0));
    assert_eq!(find_nul("ab\0cd\0"), Some(2));
    assert_eq!(find_nul("abc\0"), Some(3));
    // positions count bytes, not characters
    assert_eq!(find_nul("ğü\0"), Some(4));
    assert_eq!(find_nul("0"), None);
}

#[test]
fn parameters_without_nul_can_be_handed_over() {
    assert!(check_keygen_params(&params()).is_ok());
    let empty = SetupParams {
        pairing_param: String::new(),
        prime_order: String::new(),
        g1: String::new(),
        g2: String::new(),
        h1: String::new(),
        security_level: 0,
    };
    assert!(check_keygen_params(&empty).is_ok());
}

#[test]
fn parameter_with_nul_is_refused_with_its_place() {
    let cases = [
        (SetupParam::PairingParam, "Invalid pairing param: "),
        (SetupParam::PrimeOrder, "Invalid prime order: "),
        (SetupParam::G1, "Invalid g1: "),
        (SetupParam::G2, "Invalid g2: "),
        (SetupParam::H1, "Invalid h1: "),
    ];
    for (which, prefix) in cases {
        let mut p = params();
        let bad = "0123456789ab\0cd".to_string();
        match which {
            SetupParam::PairingParam => p.pairing_param = bad,
            SetupParam::PrimeOrder => p.prime_order = bad,
            SetupParam::G1 => p.g1 = bad,
            SetupParam::G2 => p.g2 = bad,
            SetupParam::H1 => p.h1 = bad,
        }
        let error = check_keygen_params(&p).unwrap_err();
        assert!(matches!(
            &error,
            EngineError::InvalidParam { param, position } if *param == which && *position == 12
        ));
        assert_eq!(
            error.message(EngineOp::KeyGen),
            format!("{}nul byte found in provided data at position: 12", prefix)
        );
        assert_eq!(which.complaint_str(), prefix);
    }
}

#[test]
fn refusal_names_the_byte_position_in_decimal() {
    let mut p = params();
    p.g1 = "ab\0".to_string();
    let error = check_keygen_params(&p).unwrap_err();
    assert_eq!(
        error.message(EngineOp::KeyGen),
        "Invalid g1: nul byte found in provided data at position: 2"
    );
    p.g1 = format!("{}\0", "x".repeat(1234));
    let error = check_keygen_params(&p).unwrap_err();
    assert_eq!(
        error.message(EngineOp::KeyGen),
        "Invalid g1: nul byte found in provided data at position: 1234"
    );
}

#[test]
fn first_bad_parameter_is_the_one_reported() {
    let mut p = params();
    p.h1 = "\0".to_string();
    p.prime_order = "x\0".to_string();
    p.g2 = "\0\0".to_string();
    let error = check_keygen_params(&p).unwrap_err();
    assert!(matches!(
        error,
        EngineError::InvalidParam { param: SetupParam::PrimeOrder, position: 1 }
    ));
    p.pairing_param = "\0".to_string();
    let error = check_keygen_params(&p).unwrap_err();
    assert!(matches!(
        error,
        EngineError::InvalidParam { param: SetupParam::PairingParam, position: 0 }
    ));
    assert_eq!(
        error.message(EngineOp::KeyGen),
        "Invalid pairing param: nul byte found in provided data at position: 0"
    );
}

use evoting_core::engine::{AuthorityKey, KeyGenResult, MasterVerKey, SetupParams};
use evoting_core::poll::{copy_text, Poll, PollAuthorityKey, PollMvk, PollSetup, PollStatus};

#[test]
fn status_names() {
    assert_eq!(PollStatus::Draft.as_str(), "draft");
    assert_eq!(PollStatus::Active.as_str(), "active");
    assert_eq!(PollStatus::Closed.as_str(), "closed");
}

#[test]
fn status_is_read_from_its_name_only() {
    assert_eq!(PollStatus::parse("draft"), Some(PollStatus::Draft));
    assert_eq!(PollStatus::parse("active"), Some(PollStatus::Active));
    assert_eq!(PollStatus::parse("closed"), Some(PollStatus::Closed));
    assert_eq!(PollStatus::parse("Draft"), None);
    assert_eq!(PollStatus::parse("draft "), None);
    assert_eq!(PollStatus::parse(""), None);
    assert_eq!(PollStatus::parse("open"), None);
    for status in [PollStatus::Draft, PollStatus::Active, PollStatus::Closed] {
        assert_eq!(PollStatus::parse(status.as_str()), Some(status));
    }
}

#[test]
fn new_poll_is_a_draft() {
    let poll = Poll::draft(3, "Title".to_string(), None, 9, 1234);
    assert_eq!(poll.id, 3);
    assert_eq!(poll.title, "Title");
    assert_eq!(poll.description, None);
    assert_eq!(poll.created_by, 9);
    assert_eq!(poll.status, PollStatus::Draft);
    assert_eq!(poll.created_at, 1234);
    assert_eq!(poll.started_at, None);
    assert_eq!(poll.ended_at, None);
    let poll = Poll::draft(4, String::new(), Some("About".to_string()), 9, -1);
    assert_eq!(poll.description, Some("About".to_string()));
    let copy = poll.clone();
    assert_eq!(copy.id, 4);
    assert_eq!(copy.description, Some("About".to_string()));
    assert_eq!(copy.created_at, -1);
    assert_eq!(copy.status, PollStatus::Draft);
}

#[test]
fn optional_text_is_copied() {
    assert_eq!(copy_text(&None), None);
    assert_eq!(copy_text(&Some("abc".to_string())), Some("abc".to_string()));
    assert_eq!(copy_text(&Some(String::new())), Some(String::new()));
}

fn share() -> AuthorityKey {
    AuthorityKey {
        authority_index: 4,
        sgk1: "s1".to_string(),
        sgk2: "s2".to_string(),
        vkm1: "v1".to_string(),
        vkm2: "v2".to_string(),
        vkm3: "v3".to_string(),
    }
}

#[test]
fn roster_entry_receives_a_share() {
    let mut entry = PollAuthorityKey::enrolled(2, 8);
    assert_eq!(entry.poll_id, 2);
    assert_eq!(entry.authority_id, 8);
    assert!(entry.sgk1.is_none() && entry.sgk2.is_none());
    assert!(entry.vkm1.is_none() && entry.vkm2.is_none() && entry.vkm3.is_none());
    assert!(entry.keys_received_at.is_none());
    entry.receive(&share(), 77);
    assert_eq!(entry.poll_id, 2);
    assert_eq!(entry.authority_id, 8);
    assert_eq!(entry.sgk1, Some("s1".to_string()));
    assert_eq!(entry.sgk2, Some("s2".to_string()));
    assert_eq!(entry.vkm1, Some("v1".to_string()));
    assert_eq!(entry.vkm2, Some("v2".to_string()));
    assert_eq!(entry.vkm3, Some("v3".to_string()));
    assert_eq!(entry.keys_received_at, Some(77));
    let copy = entry.clone();
    assert_eq!(copy.authority_id, 8);
    assert_eq!(copy.vkm2, Some("v2".to_string()));
    assert_eq!(copy.keys_received_at, Some(77));
}

#[test]
fn setup_record_hands_out_its_parameters() {
    let setup = PollSetup {
        poll_id: 1,
        pairing_param: "pp".to_string(),
        prime_order: "q".to_string(),
        g1: "g1".to_string(),
        g2: "g2".to_string(),
        h1: "h1".to_string(),
        security_level: 256,
        setup_completed_at: 5,
        setup_by: 1,
    };
    let params = setup.params();
    assert_eq!(params.pairing_param, "pp");
    assert_eq!(params.prime_order, "q");
    assert_eq!(params.g1, "g1");
    assert_eq!(params.g2, "g2");
    assert_eq!(params.h1, "h1");
    assert_eq!(params.security_level, 256);
    let copy = setup.clone();
    assert_eq!(copy.poll_id, 1);
    assert_eq!(copy.h1, "h1");
    assert_eq!(copy.setup_completed_at, 5);
    assert_eq!(copy.setup_by, 1);
}

#[test]
fn master_key_record_hands_out_its_key() {
    let mvk = PollMvk {
        poll_id: 1,
        alpha2: "a2".to_string(),
        beta2: "b2".to_string(),
        beta1: "b1".to_string(),
        threshold: 2,
        total_authorities: 3,
        generated_at: 6,
        generated_by: 1,
    };
    let key = mvk.key();
    assert_eq!(key.alpha2, "a2");
    assert_eq!(key.beta2, "b2");
    assert_eq!(key.beta1, "b1");
    let copy = mvk.clone();
    assert_eq!(copy.threshold, 2);
    assert_eq!(copy.total_authorities, 3);
    assert_eq!(copy.beta1, "b1");
}

#[test]
fn engine_records_are_copied_whole() {
    let params = SetupParams {
        pairing_param: "pp".to_string(),
        prime_order: "q".to_string(),
        g1: "g1".to_string(),
        g2: "g2".to_string(),
        h1: "h1".to_string(),
        security_level: 80,
    };
    let copy = params.clone();
    assert_eq!(copy.pairing_param, "pp");
    assert_eq!(copy.prime_order, "q");
    assert_eq!(copy.g1, "g1");
    assert_eq!(copy.g2, "g2");
    assert_eq!(copy.h1, "h1");
    assert_eq!(copy.security_level, 80);
    let result = KeyGenResult {
        mvk: MasterVerKey {
            alpha2: "a2".to_string(),
            beta2: "b2".to_string(),
            beta1: "b1".to_string(),
        },
        authority_keys: vec![share(), share()],
        threshold: 2,
    };
    let copy = result.clone();
    assert_eq!(copy.mvk.alpha2, "a2");
    assert_eq!(copy.mvk.beta2, "b2");
    assert_eq!(copy.mvk.beta1, "b1");
    assert_eq!(copy.threshold, 2);
    assert_eq!(copy.authority_keys.len(), 2);
    assert_eq!(copy.authority_keys[1].authority_index, 4);
    assert_eq!(copy.authority_keys[1].sgk1, "s1");
    assert_eq!(copy.authority_keys[1].sgk2, "s2");
    assert_eq!(copy.authority_keys[0].vkm1, "v1");
    assert_eq!(copy.authority_keys[0].vkm2, "v2");
    assert_eq!(copy.authority_keys[0].vkm3, "v3");
}

use cica::pairing::{
    generate_code_from, generate_unique_code, generate_uuid_from, user_key, PairingError,
    PairingStore, PendingRequest, SimpleRng, UserProfile,
};

fn request(code: &str, channel: &str, user: &str, created_at: u64) -> PendingRequest {
    PendingRequest {
        code: code.to_string(),
        channel: channel.to_string(),
        user_id: user.to_string(),
        username: None,
        display_name: None,
        created_at,
    }
}

#[test]
fn xorshift_steps() {
    let mut rng = SimpleRng::new(1);
    assert_eq!(rng.next(), 1082269761);
    assert_eq!(rng.next(), 1152992998833853505);
    assert_eq!(rng.0, 1152992998833853505);
    let mut zero = SimpleRng::new(0);
    assert_eq!(zero.next(), 0);
}

#[test]
fn codes_are_drawn_from_the_alphabet() {
    assert_eq!(generate_code_from(0), "AAAAAAAA");
    let code = generate_code_from(1);
    assert_eq!(code.len(), 8);
    assert_eq!(code, generate_code_from(1));
    assert_ne!(code, generate_code_from(2));
    for seed in [1u64, 2, 3, 12345, u64::MAX] {
        for c in generate_code_from(seed).chars() {
            assert!("ABCDEFGHJKLMNPQRSTUVWXYZ23456789".contains(c));
        }
    }
    // State after one step from 1 is 1082269761; 1082269761 % 32 == 1.
    assert!(code.starts_with('B'));
}

#[test]
fn session_identifiers_have_the_form_of_a_uuid() {
    let id = generate_uuid_from(0);
    assert_eq!(id, "00000000-0000-4000-8000-000000000000");
    let id = generate_uuid_from(0xdead_beef);
    assert_eq!(id.len(), 36);
    let bytes = id.as_bytes();
    assert_eq!(bytes[8], b'-');
    assert_eq!(bytes[13], b'-');
    assert_eq!(bytes[14], b'4');
    assert_eq!(bytes[18], b'-');
    assert!(matches!(bytes[19], b'8' | b'9' | b'a' | b'b'));
    assert_eq!(bytes[23], b'-');
    assert!(id.chars().all(|c| c == '-' || c.is_ascii_digit() || ('a'..='f').contains(&c)));
    assert_eq!(id, generate_uuid_from(0xdead_beef));
}

#[test]
fn user_keys() {
    assert_eq!(user_key("telegram", "12345"), "telegram:12345");
    assert_eq!(user_key("", ""), ":");
}

#[test]
fn unique_codes_avoid_the_taken_ones() {
    let existing = vec![request("AAAAAAAA", "c", "u", 0)];
    let code = generate_unique_code(&existing).unwrap();
    assert_eq!(code.len(), 8);
    assert_ne!(code, "AAAAAAAA");
}

#[test]
fn expired_requests_are_pruned() {
    let mut store = PairingStore::default();
    store.pending.push(request("OLD", "c", "old", 1_000));
    store.pending.push(request("EDGE", "c", "edge", 1_400));
    store.pending.push(request("NEW", "c", "new", 4_000));
    store.pending.push(request("FUTURE", "c", "future", 9_000));
    store.prune_expired_at(5_000);
    let codes: Vec<&str> = store.pending.iter().map(|r| r.code.as_str()).collect();
    // 5000 - 1400 = 3600 is no longer less than an hour.
    assert_eq!(codes, vec!["NEW", "FUTURE"]);
    store.prune_expired_at(4_000);
    assert_eq!(store.pending.len(), 2);
}

#[test]
fn pending_request_is_made_once() {
    let mut store = PairingStore::default();
    let (code, is_new) = store.get_or_create_pending_at(
        "telegram",
        "1",
        Some("nick".to_string()),
        None,
        100,
        "CODE2345".to_string(),
    );
    assert_eq!(code, "CODE2345");
    assert!(is_new);
    assert_eq!(store.pending.len(), 1);
    assert_eq!(store.pending[0].username, Some("nick".to_string()));
    assert_eq!(store.pending[0].created_at, 100);
    let (code, is_new) =
        store.get_or_create_pending_at("telegram", "1", None, None, 200, "OTHER".to_string());
    assert_eq!(code, "CODE2345");
    assert!(!is_new);
    assert_eq!(store.pending.len(), 1);
    // After an hour the request is gone and a new one is made.
    let (code, is_new) =
        store.get_or_create_pending_at("telegram", "1", None, None, 3_700, "LATER".to_string());
    assert_eq!(code, "LATER");
    assert!(is_new);
    assert_eq!(store.pending.len(), 1);
}

#[test]
fn pending_request_by_the_clock() {
    let mut store = PairingStore::default();
    let (code, is_new) = store.get_or_create_pending("telegram", "1", None, None).unwrap();
    assert!(is_new);
    assert_eq!(code.len(), 8);
    let (again, is_new) = store.get_or_create_pending("telegram", "1", None, None).unwrap();
    assert!(!is_new);
    assert_eq!(again, code);
    let (other, is_new) = store.get_or_create_pending("telegram", "2", None, None).unwrap();
    assert!(is_new);
    assert_ne!(other, code);
    assert_eq!(store.list_pending().len(), 2);
}

#[test]
fn approve_lets_the_user_in() {
    let mut store = PairingStore::default();
    store.pending.push(request("ABCD2345", "telegram", "1", 100));
    store.pending.push(request("WXYZ6789", "signal", "2", 100));
    assert!(!store.is_approved("telegram", "1"));
    // Codes are compared in upper case.
    let approved = store.approve_at("abcd2345", 200).unwrap();
    assert_eq!(approved.user_id, "1");
    assert_eq!(approved.code, "ABCD2345");
    assert!(store.is_approved("telegram", "1"));
    assert!(!store.is_approved("telegram", "2"));
    assert!(!store.is_approved("signal", "1"));
    assert_eq!(store.pending.len(), 1);
    assert_eq!(store.pending[0].code, "WXYZ6789");
}

#[test]
fn approve_of_an_unknown_or_expired_code_is_refused() {
    let mut store = PairingStore::default();
    store.pending.push(request("ABCD2345", "telegram", "1", 100));
    let refused = store.approve_at("nope", 200).unwrap_err();
    assert!(matches!(refused, PairingError::NoPendingRequest(_)));
    assert_eq!(refused.message(), "No pending request found for code: nope");
    let refused = store.approve_at("ABCD2345", 100 + 3600).unwrap_err();
    assert_eq!(refused.message(), "No pending request found for code: ABCD2345");
    assert!(!store.is_approved("telegram", "1"));
    assert_eq!(
        PairingError::CodesExhausted.message(),
        "Failed to generate unique code after 100 attempts"
    );
}

#[test]
fn approve_by_the_clock() {
    let mut store = PairingStore::default();
    let (code, _) = store.get_or_create_pending("telegram", "1", None, None).unwrap();
    let approved = store.approve(&code.to_lowercase()).unwrap();
    assert_eq!(approved.channel, "telegram");
    assert!(store.is_approved("telegram", "1"));
    assert!(store.approve(&code).is_err());
}

#[test]
fn auto_approve_adds_the_user() {
    let mut store = PairingStore::default();
    store.auto_approve("slack", "U1", None, None);
    store.auto_approve("slack", "U2", None, None);
    assert!(store.is_approved("slack", "U1"));
    assert!(store.is_approved("slack", "U2"));
    assert!(!store.is_approved("slack", "U3"));
    assert!(!store.is_approved("telegram", "U1"));
}

#[test]
fn sessions_are_kept_and_reset() {
    let mut store = PairingStore::default();
    let first = store.get_or_create_session("telegram", "1");
    assert_eq!(first.len(), 36);
    assert_eq!(store.get_or_create_session("telegram", "1"), first);
    assert_eq!(
        store.get_or_create_session_with("telegram", "2", "given".to_string()),
        "given"
    );
    assert_eq!(
        store.get_or_create_session_with("telegram", "2", "ignored".to_string()),
        "given"
    );
    store.reset_session("telegram", "2");
    assert_eq!(
        store.get_or_create_session_with("telegram", "2", "fresh".to_string()),
        "fresh"
    );
    store.reset_session("nobody", "0");
}

#[test]
fn profiles() {
    let mut store = PairingStore::default();
    assert!(store.get_user_profile("telegram", "1").is_none());
    assert!(!store.is_user_onboarded("telegram", "1"));
    {
        let profile = store.get_or_create_user_profile("telegram", "1");
        assert_eq!(profile.name, None);
        assert!(!profile.onboarding_complete);
        profile.name = Some("Ada".to_string());
    }
    assert_eq!(
        store.get_user_profile("telegram", "1").unwrap().name,
        Some("Ada".to_string())
    );
    store.get_or_create_user_profile("telegram", "1").onboarding_complete = true;
    assert!(store.is_user_onboarded("telegram", "1"));
    assert_eq!(
        store.get_user_profile("telegram", "1").unwrap().name,
        Some("Ada".to_string())
    );
    store.update_user_profile("telegram", "1", UserProfile::default());
    assert!(!store.is_user_onboarded("telegram", "1"));
    assert_eq!(store.get_user_profile("telegram", "1").unwrap().name, None);
}

use deathfr::executor::CallError;
use deathfr::executor::CallStep;
use deathfr::executor::Endpoint;
use deathfr::feed::extract_revives;
use deathfr::json::JsonValue;
use deathfr::key_pool::APIKey;
use deathfr::key_pool::TornAPI;

fn two_key_pool() -> TornAPI {
    TornAPI::new_at(
        vec![
            APIKey { key: "KEYA".to_string(), rate_limit: 5, owner: "a".to_string() },
            APIKey { key: "KEYB".to_string(), rate_limit: 5, owner: "b".to_string() },
        ],
        0,
    )
}

fn url_of(step: CallStep) -> String {
    match step {
        CallStep::Get { url } => url,
        _ => panic!("expected a fetch directive"),
    }
}

#[test]
fn request_url_embeds_secret_and_comment() {
    let mut pool = two_key_pool();
    let url = url_of(pool.next_attempt(&Endpoint::PlayerProfile { player_id: 2531272 }, 0));
    assert_eq!(
        url,
        "https://api.torn.com/user/2531272?selections=profile&key=KEYA&comment=TornAPI"
    );
}

#[test]
fn set_name_changes_the_comment() {
    let mut pool = two_key_pool();
    pool.set_name("Revive Monitor (Deathfr)".to_string());
    let url = url_of(pool.next_attempt(&Endpoint::RevivesFeed { from: 1000 }, 0));
    assert_eq!(
        url,
        "https://api.torn.com/faction/?selections=revivesfull,basic&from=1000&key=KEYA&comment=Revive Monitor (Deathfr)"
    );
}

#[test]
fn faction_endpoint_url() {
    let mut pool = two_key_pool();
    let url = url_of(pool.next_attempt(&Endpoint::FactionBasic { faction_id: 14821 }, 0));
    assert_eq!(
        url,
        "https://api.torn.com/faction/14821?selections=basic&key=KEYA&comment=TornAPI"
    );
}

#[test]
fn success_returns_the_decoded_body() {
    let mut pool = two_key_pool();
    let _ = pool.next_attempt(&Endpoint::PlayerProfile { player_id: 1 }, 0);
    match pool.handle_response(Some(r#"{"name": "Llyfr", "player_id": 1}"#)) {
        CallStep::Done { value } => match value.get("name") {
            Some(JsonValue::Text(s)) => assert_eq!(s, "Llyfr"),
            _ => panic!("decoded body lost the name field"),
        },
        _ => panic!("expected success"),
    }
}

#[test]
fn rate_limit_backs_off_and_retries() {
    let mut pool = two_key_pool();
    let _ = pool.next_attempt(&Endpoint::PlayerProfile { player_id: 1 }, 0);
    match pool.handle_response(Some(r#"{"error": {"code": 5, "message": "Too many requests"}}"#)) {
        CallStep::Sleep { seconds } => assert_eq!(seconds, 60),
        _ => panic!("expected a backoff"),
    }
    // The retry re-acquires: the first credential still rotates onward.
    let url = url_of(pool.next_attempt(&Endpoint::PlayerProfile { player_id: 1 }, 0));
    assert!(url.contains("key=KEYB"));
}

#[test]
fn invalid_key_is_evicted_and_the_call_retried() {
    let mut pool = two_key_pool();
    let url = url_of(pool.next_attempt(&Endpoint::PlayerProfile { player_id: 1 }, 0));
    assert!(url.contains("key=KEYA"));
    match pool.handle_response(Some(r#"{"error": {"code": 2, "message": "Incorrect key"}}"#)) {
        CallStep::Retry => {},
        _ => panic!("expected an immediate retry after eviction"),
    }
    // The evicted credential is skipped for the rest of the window.
    let url = url_of(pool.next_attempt(&Endpoint::PlayerProfile { player_id: 1 }, 0));
    assert!(url.contains("key=KEYB"));
    let url = url_of(pool.next_attempt(&Endpoint::PlayerProfile { player_id: 1 }, 0));
    assert!(url.contains("key=KEYB"));
}

#[test]
fn other_error_codes_are_fatal() {
    let mut pool = two_key_pool();
    let _ = pool.next_attempt(&Endpoint::PlayerProfile { player_id: 1 }, 0);
    match pool.handle_response(Some(r#"{"error": {"code": 7, "message": "Wrong ID"}}"#)) {
        CallStep::Failed { error } => assert_eq!(error, CallError::Api { code: 7 }),
        _ => panic!("expected a fatal failure"),
    }
}

#[test]
fn transport_and_decode_failures_are_fatal() {
    let mut pool = two_key_pool();
    let _ = pool.next_attempt(&Endpoint::PlayerProfile { player_id: 1 }, 0);
    match pool.handle_response(None) {
        CallStep::Failed { error } => assert_eq!(error, CallError::Transport),
        _ => panic!("expected a transport failure"),
    }
    let _ = pool.next_attempt(&Endpoint::PlayerProfile { player_id: 1 }, 0);
    match pool.handle_response(Some("this is not json")) {
        CallStep::Failed { error } => assert_eq!(error, CallError::Decode),
        _ => panic!("expected a decode failure"),
    }
}

#[test]
fn every_credential_invalid_surfaces_exhaustion() {
    let mut pool = two_key_pool();
    let invalid = r#"{"error": {"code": 2, "message": "Incorrect key"}}"#;
    let _ = pool.next_attempt(&Endpoint::PlayerProfile { player_id: 1 }, 0);
    let _ = pool.handle_response(Some(invalid));
    let _ = pool.next_attempt(&Endpoint::PlayerProfile { player_id: 1 }, 0);
    let _ = pool.handle_response(Some(invalid));
    match pool.next_attempt(&Endpoint::PlayerProfile { player_id: 1 }, 0) {
        CallStep::Failed { error } => assert_eq!(error, CallError::Exhausted),
        _ => panic!("expected fatal exhaustion once every credential is evicted"),
    }
}

#[test]
fn feed_response_decodes_into_event_records() {
    let mut pool = two_key_pool();
    let _ = pool.next_attempt(&Endpoint::RevivesFeed { from: 1000 }, 0);
    let body = r#"{
        "ID": 123,
        "name": "Lifeline",
        "revives": {
            "771": {
                "timestamp": 1010,
                "result": "success",
                "chance": 84.48,
                "reviver_id": 4,
                "reviver_faction": 123,
                "target_id": 9,
                "target_faction": 55,
                "target_hospital_reason": "Hospitalized by someone",
                "target_early_discharge": true,
                "target_last_action": {"status": "Offline", "timestamp": 995}
            },
            "772": {
                "timestamp": 1020,
                "result": "failure",
                "chance": 12
            }
        }
    }"#;
    let value = match pool.handle_response(Some(body)) {
        CallStep::Done { value } => value,
        _ => panic!("expected success"),
    };
    let (entries, partition) = extract_revives(&value).expect("a well-formed feed response");
    assert_eq!(partition, 123);
    assert_eq!(entries.len(), 2);
    let first = &entries[0];
    assert_eq!(first.id, "771");
    assert_eq!(first.timestamp, 1010);
    assert_eq!(first.result, "success");
    assert_eq!(first.chance, "84.48");
    assert_eq!(first.reviver_id, 4);
    assert_eq!(first.reviver_faction, 123);
    assert_eq!(first.target_id, 9);
    assert_eq!(first.target_faction, 55);
    assert_eq!(first.target_hospital_reason, "Hospitalized by someone");
    assert!(first.target_early_discharge);
    assert_eq!(first.target_last_action.status, "Offline");
    assert_eq!(first.target_last_action.timestamp, 995);
    // Missing payload fields fall back to neutral values.
    let second = &entries[1];
    assert_eq!(second.id, "772");
    assert_eq!(second.timestamp, 1020);
    assert_eq!(second.chance, "12");
    assert_eq!(second.reviver_id, 0);
    assert_eq!(second.target_hospital_reason, "");
    assert!(!second.target_early_discharge);
    assert_eq!(second.target_last_action.status, "");
}

#[test]
fn feed_response_without_revives_is_rejected() {
    let v = deathfr::json::JsonValue::Object(vec![(
        "ID".to_string(),
        deathfr::json::JsonValue::UInt(123),
    )]);
    assert!(extract_revives(&v).is_none());
}

#[test]
fn feed_response_without_partition_is_rejected() {
    let v = deathfr::json::JsonValue::Object(vec![(
        "revives".to_string(),
        deathfr::json::JsonValue::Object(vec![]),
    )]);
    assert!(extract_revives(&v).is_none());
}

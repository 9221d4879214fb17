use deathfr::structures::{ReviveEntry, Secrets, Status, TargetLastAction};

#[test]
fn secrets_carry_the_configured_values() {
    let secrets = Secrets {
        revive_channel: 1,
        revive_role: 2,
        revive_faction_guild: 3,
        revive_faction: 123,
        owner_id: 4,
        admins: vec![5, 6],
        revive_faction_api_key: "KEYA".to_string(),
        test_api_key: "KEYT".to_string(),
        dev: false,
    };
    let copy = secrets.clone();
    assert_eq!(copy.revive_faction, 123);
    assert_eq!(copy.admins, vec![5, 6]);
    assert!(!copy.dev);
}

#[test]
fn contract_status_distinguishes_its_states() {
    assert_eq!(Status::Active, Status::Active);
    assert_ne!(Status::Active, Status::Ended);
}

#[test]
fn event_records_carry_their_payload() {
    let entry = ReviveEntry {
        id: "771".to_string(),
        timestamp: 1010,
        result: "success".to_string(),
        chance: "84.48".to_string(),
        reviver_id: 4,
        reviver_faction: 123,
        target_id: 9,
        target_faction: 55,
        target_hospital_reason: "Hospitalized".to_string(),
        target_early_discharge: true,
        target_last_action: TargetLastAction { status: "Offline".to_string(), timestamp: 995 },
    };
    let copy = entry.clone();
    assert_eq!(copy.id, "771");
    assert_eq!(copy.chance, "84.48");
    assert_eq!(copy.target_last_action.timestamp, 995);
}

use agent_session_search::ids::{AgentSessionId, Uuid};

#[test]
fn uuid_text_is_hyphenated_lower_case_hex() {
    let id = Uuid::from_u128(0x0197F7766E7B7C69A251780AE754D3E4);
    assert_eq!(id.to_string(), "0197f776-6e7b-7c69-a251-780ae754d3e4");
    assert_eq!(Uuid::from_u128(0).to_string(), "00000000-0000-0000-0000-000000000000");
}

#[test]
fn uuid_text_parses_back() {
    let id = Uuid::from_u128(0xdeadbeef_0000_4000_8000_0123456789ab);
    assert_eq!(Uuid::parse_str(&id.to_string()), Some(id));
    assert_eq!(Uuid::parse_str("not a uuid"), None);
    assert_eq!(
        Uuid::parse_str("3F6F8B0A-6F9F-4A3F-9C3A-2B1E5D4C7A90").map(|u| u.to_string()),
        Some("3f6f8b0a-6f9f-4a3f-9c3a-2b1e5d4c7a90".to_string())
    );
}

#[test]
fn session_id_text_is_its_uuid_text() {
    let uuid = Uuid::from_u128(42);
    let id = AgentSessionId::new_from_uuid(uuid);
    assert_eq!(id.as_uuid(), uuid);
    assert_eq!(id.to_string(), "00000000-0000-0000-0000-00000000002a");
    assert_eq!(uuid.as_u128(), 42);
}

use ticket_vc::models::Category;
use ticket_vc::routes::{
    category_from_str, handle_just_500, handle_not_found, handle_unproccessable_entity,
    parse_ticket, ping, relay_outcome, validate_ticket_fields,
};

#[test]
fn test_ping() {
    assert_eq!(ping(), "pong");
}

#[test]
fn test_issue_vc_invalid_data() {
    let cases = vec![
        r#"{"name": "Alice", "category": "InvalidCategory"}"#,
        r#"{"name": "alice", "category": ""}"#,
        r#"{"category": "Standard"}"#,
        r#"{"name": "alice"}"#,
    ];

    for json in cases {
        let result = parse_ticket(json);
        assert!(result.is_err(), "body should be rejected: {}", json);

        let body = handle_unproccessable_entity();
        let response_body: serde_json::Value =
            serde_json::from_str(body).expect("Response was not JSON");
        assert_eq!(response_body["error"], 422);
        assert_eq!(
            response_body["message"],
            "Unprocessable entity: Validation failed"
        );
    }
}

#[test]
fn test_parse_ticket_valid_categories() {
    let cases = vec![
        (r#"{"name": "alice", "category": "Standard"}"#, Category::Standard),
        (r#"{"name": "alice", "category": "Vip"}"#, Category::Vip),
        (r#"{"name": "alice", "category": "Fast"}"#, Category::Fast),
        (r#"{"name": "alice", "category": "Extra"}"#, Category::Extra),
    ];
    for (body, expected) in cases {
        let ticket = parse_ticket(body).expect("valid body should parse");
        assert_eq!(ticket.name, "alice");
        assert_eq!(ticket.category, expected);
    }
}

#[test]
fn test_category_from_str() {
    assert_eq!(category_from_str("Standard"), Some(Category::Standard));
    assert_eq!(category_from_str("Vip"), Some(Category::Vip));
    assert_eq!(category_from_str("Fast"), Some(Category::Fast));
    assert_eq!(category_from_str("Extra"), Some(Category::Extra));
    assert_eq!(category_from_str("fast"), None);
    assert_eq!(category_from_str(""), None);
    assert_eq!(category_from_str("Fast Pass"), None);
}

#[test]
fn test_validate_ticket_fields_missing() {
    assert!(validate_ticket_fields(None, Some("Standard".to_string())).is_err());
    assert!(validate_ticket_fields(Some("alice".to_string()), None).is_err());
    assert!(validate_ticket_fields(None, None).is_err());
}

#[test]
fn test_relay_outcome() {
    let ok = relay_outcome(200, Some("{\"invitationId\":\"x\"}".to_string()));
    assert_eq!(ok.unwrap(), "{\"invitationId\":\"x\"}");

    assert!(relay_outcome(500, Some("{}".to_string())).is_err());
    assert!(relay_outcome(404, Some("{}".to_string())).is_err());
    assert!(relay_outcome(200, None).is_err());
    assert!(relay_outcome(302, Some("{}".to_string())).is_err());

    let created = relay_outcome(201, Some("body".to_string()));
    assert_eq!(created.unwrap(), "body");
}

#[test]
fn test_error_bodies() {
    let not_found: serde_json::Value = serde_json::from_str(handle_not_found()).unwrap();
    assert_eq!(not_found["error"], 404);
    assert_eq!(not_found["message"], "Resource not found");

    let internal: serde_json::Value = serde_json::from_str(handle_just_500()).unwrap();
    assert_eq!(internal["error"], 500);
    assert_eq!(internal["message"], "Internal server error");
}

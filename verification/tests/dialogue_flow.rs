use ticket_vc::dialogue::{
    complete_issuance, dialogue_step, make_keyboard, receive_category, receive_name, start,
    ChatEvent, CompletionError, StepOutcome,
};
use ticket_vc::models::State;

fn assert_receive_name(next: &Option<State>) {
    assert!(matches!(next, Some(State::ReceiveName)));
}

#[test]
fn test_dialogue_happy_path() {
    // Start: any message greets and advances
    let s0: StepOutcome = start();
    assert_receive_name(&s0.next);
    assert_eq!(s0.reply.as_deref(), Some("Welcome! Please enter the visitor's full name."));
    assert!(!s0.show_keyboard);
    assert!(s0.issue.is_none());

    // ReceiveName: a text advances to ReceiveCategory carrying the name
    let s1 = receive_name(Some("Alice".to_string()));
    match &s1.next {
        Some(State::ReceiveCategory { name }) => assert_eq!(name, "Alice"),
        other => panic!("expected ReceiveCategory, got {:?}", other.is_some()),
    }
    assert_eq!(s1.reply.as_deref(), Some("Choose your ticket type:"));
    assert!(s1.show_keyboard);
    assert!(s1.issue.is_none());

    // ReceiveCategory: a selection asks for the issuance
    let s2 = receive_category(s1.next.unwrap(), Some("Fast".to_string()));
    assert!(matches!(&s2.next, Some(State::ReceiveCategory { name }) if name == "Alice"));
    let request = s2.issue.expect("a selection should request issuance");
    assert_eq!(request.name, "Alice");
    assert_eq!(request.category, "Fast");
    assert_eq!(s2.reply.as_deref(), Some("Processing ticket for Alice (Fast)"));
}

#[test]
fn test_receive_name_without_text_reprompts() {
    let s = receive_name(None);
    assert_receive_name(&s.next);
    assert_eq!(s.reply.as_deref(), Some("Please enter a valid name."));
    assert!(!s.show_keyboard);
    assert!(s.issue.is_none());
}

#[test]
fn test_receive_category_without_selection_keeps_state() {
    let s = receive_category(State::ReceiveCategory { name: "Bob".to_string() }, None);
    assert!(matches!(&s.next, Some(State::ReceiveCategory { name }) if name == "Bob"));
    assert!(s.reply.is_none());
    assert!(s.issue.is_none());
}

#[test]
fn test_dialogue_step_routing() {
    // a selection while still in Start changes nothing
    let s = dialogue_step(State::Start, ChatEvent::Selection { data: Some("Vip".to_string()) });
    assert!(matches!(s.next, Some(State::Start)));
    assert!(s.issue.is_none());

    // a message in Start greets
    let s = dialogue_step(State::Start, ChatEvent::Message { text: Some("hi".to_string()) });
    assert_receive_name(&s.next);

    // a stray message while choosing the category changes nothing
    let s = dialogue_step(
        State::ReceiveCategory { name: "Ann".to_string() },
        ChatEvent::Message { text: Some("hello?".to_string()) },
    );
    assert!(matches!(&s.next, Some(State::ReceiveCategory { name }) if name == "Ann"));
    assert!(s.issue.is_none());
}

#[test]
fn test_make_keyboard_rows() {
    let rows = make_keyboard();
    assert_eq!(rows.len(), 2);
    assert_eq!(rows[0], vec!["Standard".to_string(), "Vip".to_string()]);
    assert_eq!(rows[1], vec!["Fast".to_string(), "Extra".to_string()]);
}

#[test]
fn test_complete_issuance_success() {
    let body = r#"{"invitationId":"6b86b273-ff34-4c64-9c1f-4a0d6c9f2b4e","oobContentData":"didcomm://?_oob=eyJpZCI6IjEifQ"}"#;
    let done = complete_issuance(body).expect("well-formed response should complete");
    assert_eq!(done.response._invitation_id, "6b86b273-ff34-4c64-9c1f-4a0d6c9f2b4e");
    assert_eq!(done.response.oob_content_data, "didcomm://?_oob=eyJpZCI6IjEifQ");
    assert!(done.response.oob_content_data.starts_with("didcomm://?_oob="));
    assert_eq!(done.confirmation, "Your ticket has been processed.");
    assert!(done.next.is_none(), "a completed session is closed");
    assert_eq!(done.image.pixels.len(), done.image.width * done.image.width);
    assert!(done.image.pixels.iter().any(|&p| p == 0));
}

#[test]
fn test_complete_issuance_malformed() {
    let missing_oob = r#"{"invitationId":"abc"}"#;
    assert!(matches!(complete_issuance(missing_oob), Err(CompletionError::MalformedResponse)));

    let missing_id = r#"{"oobContentData":"didcomm://?_oob=x"}"#;
    assert!(matches!(complete_issuance(missing_id), Err(CompletionError::MalformedResponse)));

    let not_json = "plainly not json";
    assert!(matches!(complete_issuance(not_json), Err(CompletionError::MalformedResponse)));

    let wrong_type = r#"{"invitationId":7,"oobContentData":"didcomm://?_oob=x"}"#;
    assert!(matches!(complete_issuance(wrong_type), Err(CompletionError::MalformedResponse)));
}

#[test]
fn test_complete_issuance_qr_failure() {
    // a well-formed response whose content exceeds any QR symbol's capacity
    let oversized = format!(
        r#"{{"invitationId":"abc","oobContentData":"{}"}}"#,
        "x".repeat(5000)
    );
    assert!(matches!(
        complete_issuance(&oversized),
        Err(CompletionError::QrEncoding(_))
    ));
}

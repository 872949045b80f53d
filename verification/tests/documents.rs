use chrono::DateTime;

use ticket_vc::document::{
    build_credential_document, prepare_credential_document, update_common_fields,
    update_display_fields, CredentialDocument,
};
use ticket_vc::models::{Category, Ticket};
use ticket_vc::utils::get_category_data;
use ticket_vc::timestamp::DateParts;

fn fixed_parts() -> DateParts {
    DateParts {
        year: 2024,
        month: 2,
        day: 29,
        hour: 23,
        minute: 59,
        second: 59,
        offset_seconds: -14400,
    }
}

#[test]
fn test_build_document_fast() {
    let ticket = Ticket { name: "alice".to_string(), category: Category::Fast };
    let doc = build_credential_document(&ticket, "some-fixed-id", &fixed_parts());

    assert_eq!(doc.id, "some-fixed-id");
    assert_eq!(doc.subject_name, "alice");
    assert_eq!(doc.subject_category, "Fast Pass");
    assert_eq!(doc.issuance_date, "2024-02-29T23:59:59-04:00");
    assert_eq!(doc.expiration_date, "2024-03-01T07:59:59-04:00");
    assert_eq!(doc.display_title, "Fast Pass");
    assert_eq!(
        doc.display_description,
        "With this credential, you have the following benefit/access:\n- Fast pass to all attractions"
    );
    assert_eq!(doc.output_hero_uri, "https://limbertlino.github.io/schemas/images/f.png");
    assert_eq!(doc.issuer_hero_uri, doc.output_hero_uri);
    assert_eq!(doc.output_background_color, "#FFFFFF");
    assert_eq!(doc.issuer_background_color, doc.output_background_color);
}

#[test]
fn test_subject_category_labels() {
    let cases = vec![
        (Category::Standard, "Standard"),
        (Category::Vip, "Vip"),
        (Category::Fast, "Fast Pass"),
        (Category::Extra, "Extra"),
    ];
    for (category, label) in cases {
        let ticket = Ticket { name: "bob".to_string(), category };
        let doc = build_credential_document(&ticket, "id", &fixed_parts());
        assert_eq!(doc.subject_name, "bob");
        assert_eq!(doc.subject_category, label);
    }
}

#[test]
fn test_display_fields_per_category() {
    let hero = vec![
        (Category::Standard, "https://limbertlino.github.io/schemas/images/s.png", "Regular Pass"),
        (Category::Vip, "https://limbertlino.github.io/schemas/images/v.png", "Vip Pass"),
        (Category::Fast, "https://limbertlino.github.io/schemas/images/f.png", "Fast Pass"),
        (Category::Extra, "https://limbertlino.github.io/schemas/images/e.png", "Extra Pass"),
    ];
    for (category, uri, title) in hero {
        let ticket = Ticket { name: "carol".to_string(), category };
        let doc = build_credential_document(&ticket, "id", &fixed_parts());
        assert_eq!(doc.display_title, title);
        assert_eq!(doc.output_hero_uri, uri);
        assert_eq!(doc.issuer_hero_uri, uri);
        assert!(!doc.display_description.is_empty());
        assert_eq!(doc.output_background_color, "#FFFFFF");
        assert_eq!(doc.issuer_background_color, "#FFFFFF");
    }
}

#[test]
fn test_prepare_document_expiration_eight_hours() {
    let ticket = Ticket { name: "dave".to_string(), category: Category::Standard };
    let doc = prepare_credential_document(&ticket);

    assert_eq!(doc.id.len(), 21);
    assert_eq!(doc.subject_name, "dave");
    assert_eq!(doc.subject_category, "Standard");

    let issued = DateTime::parse_from_str(&doc.issuance_date, "%Y-%m-%dT%H:%M:%S%:z")
        .expect("issuance date should parse back");
    let expires = DateTime::parse_from_str(&doc.expiration_date, "%Y-%m-%dT%H:%M:%S%:z")
        .expect("expiration date should parse back");
    let diff = expires.signed_duration_since(issued);
    assert_eq!(diff.num_seconds(), 8 * 3600);
}

#[test]
fn test_update_fields_apply_as_units() {
    let mut doc = CredentialDocument {
        id: String::new(),
        issuance_date: String::new(),
        expiration_date: String::new(),
        subject_name: String::new(),
        subject_category: String::new(),
        display_title: String::new(),
        display_description: String::new(),
        output_hero_uri: String::new(),
        output_background_color: String::new(),
        issuer_hero_uri: String::new(),
        issuer_background_color: String::new(),
    };

    let ticket = Ticket { name: "erin".to_string(), category: Category::Vip };
    update_common_fields(&mut doc, &ticket, "id-1", "2024-01-01T00:00:00+00:00", "2024-01-01T08:00:00+00:00");
    assert_eq!(doc.id, "id-1");
    assert_eq!(doc.subject_name, "erin");
    assert_eq!(doc.subject_category, "Vip");
    // display fields untouched by the common update
    assert!(doc.display_title.is_empty());
    assert!(doc.issuer_hero_uri.is_empty());

    let data = get_category_data(&ticket.category);
    update_display_fields(&mut doc, &data);
    // all four display substitutions land together, in both sections
    assert_eq!(doc.display_title, "Vip Pass");
    assert!(!doc.display_description.is_empty());
    assert_eq!(doc.output_hero_uri, "https://limbertlino.github.io/schemas/images/v.png");
    assert_eq!(doc.issuer_hero_uri, doc.output_hero_uri);
    assert_eq!(doc.output_background_color, "#FFFFFF");
    assert_eq!(doc.issuer_background_color, "#FFFFFF");
    // the common fields survive the display update
    assert_eq!(doc.id, "id-1");
    assert_eq!(doc.issuance_date, "2024-01-01T00:00:00+00:00");
    assert_eq!(doc.expiration_date, "2024-01-01T08:00:00+00:00");
}

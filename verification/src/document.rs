use vstd::prelude::*;

use crate::models::{CategoryData, Ticket};
use crate::timestamp::{
    add_hours, format_timestamp, is_iso8601_offset_timestamp, lemma_add_hours_advances_seconds,
    lemma_timestamp_matches_pattern, local_now_parts, spec_add_hours, spec_total_seconds,
    timestamp_chars, DateParts,
};
use crate::utils::{
    get_category_data, spec_category_background_color, spec_category_description,
    spec_category_hero_uri, spec_category_title,
};

verus! {

/// The per-request slots of the credential template: the base document is
/// static configuration, and exactly these fields are substituted into it,
/// the display fields in two places each (the output descriptor and the
/// issuer section).
pub struct CredentialDocument {
    pub id: String,
    pub issuance_date: String,
    pub expiration_date: String,
    pub subject_name: String,
    pub subject_category: String,
    pub display_title: String,
    pub display_description: String,
    pub output_hero_uri: String,
    pub output_background_color: String,
    pub issuer_hero_uri: String,
    pub issuer_background_color: String,
}

/// Updates the common fields of the credential document with the ticket
/// details; the display fields are left as they are.
pub fn update_common_fields(
    doc: &mut CredentialDocument,
    ticket: &Ticket,
    id: &str,
    issuance_date: &str,
    expiration_date: &str,
)
    ensures
        final(doc).id@ == id@,
        final(doc).issuance_date@ == issuance_date@,
        final(doc).expiration_date@ == expiration_date@,
        final(doc).subject_name@ == ticket.name@,
        final(doc).subject_category@ == ticket.category.spec_label(),
        final(doc).display_title == old(doc).display_title,
        final(doc).display_description == old(doc).display_description,
        final(doc).output_hero_uri == old(doc).output_hero_uri,
        final(doc).output_background_color == old(doc).output_background_color,
        final(doc).issuer_hero_uri == old(doc).issuer_hero_uri,
        final(doc).issuer_background_color == old(doc).issuer_background_color,
{
    doc.id = id.to_owned();
    doc.issuance_date = issuance_date.to_owned();
    doc.expiration_date = expiration_date.to_owned();
    doc.subject_name = ticket.name.clone();
    doc.subject_category = ticket.category.label().to_owned();
}

/// Applies the four display substitutions as one unit: title, description,
/// and — in the output descriptor and the issuer section both — the hero
/// URI and the background color. The common fields are left as they are.
pub fn update_display_fields(doc: &mut CredentialDocument, data: &CategoryData)
    ensures
        final(doc).display_title@ == data.title@,
        final(doc).display_description@ == data.description@,
        final(doc).output_hero_uri@ == data.hero_uri@,
        final(doc).issuer_hero_uri@ == data.hero_uri@,
        final(doc).output_background_color@ == data.background_color@,
        final(doc).issuer_background_color@ == data.background_color@,
        final(doc).id == old(doc).id,
        final(doc).issuance_date == old(doc).issuance_date,
        final(doc).expiration_date == old(doc).expiration_date,
        final(doc).subject_name == old(doc).subject_name,
        final(doc).subject_category == old(doc).subject_category,
{
    doc.display_title = data.title.to_owned();
    doc.display_description = data.description.to_owned();
    doc.output_hero_uri = data.hero_uri.to_owned();
    doc.issuer_hero_uri = data.hero_uri.to_owned();
    doc.output_background_color = data.background_color.to_owned();
    doc.issuer_background_color = data.background_color.to_owned();
}

/// Builds the populated credential document of a ticket: the given
/// identifier, the issuance instant, the expiration instant exactly eight
/// hours later, the subject fields from the ticket, and the display
/// record of the ticket's category, all substituted as one unit.
pub fn build_credential_document(ticket: &Ticket, id: &str, issued: &DateParts) -> (r:
    CredentialDocument)
    requires
        issued.wf(),
        issued.year <= 262142,
    ensures
        r.id@ == id@,
        r.issuance_date@ == timestamp_chars(*issued),
        r.expiration_date@ == timestamp_chars(spec_add_hours(*issued, 8)),
        r.subject_name@ == ticket.name@,
        r.subject_category@ == ticket.category.spec_label(),
        r.display_title@ == spec_category_title(ticket.category),
        r.display_description@ == spec_category_description(ticket.category),
        r.output_hero_uri@ == spec_category_hero_uri(ticket.category),
        r.issuer_hero_uri@ == spec_category_hero_uri(ticket.category),
        r.output_background_color@ == spec_category_background_color(ticket.category),
        r.issuer_background_color@ == spec_category_background_color(ticket.category),
{
    let issuance = format_timestamp(issued);
    let expiration_parts = add_hours(issued, 8);
    let expiration = format_timestamp(&expiration_parts);
    let data = get_category_data(&ticket.category);
    let mut doc = CredentialDocument {
        id: String::new(),
        issuance_date: String::new(),
        expiration_date: String::new(),
        subject_name: String::new(),
        subject_category: String::new(),
        display_title: String::new(),
        display_description: String::new(),
        output_hero_uri: String::new(),
        output_background_color: String::new(),
        issuer_hero_uri: String::new(),
        issuer_background_color: String::new(),
    };
    update_common_fields(&mut doc, ticket, id, issuance.as_str(), expiration.as_str());
    update_display_fields(&mut doc, &data);
    doc
}

/// Builds the credential document of a ticket from a fresh identifier and
/// the current local time.
pub fn prepare_credential_document(ticket: &Ticket) -> (r: CredentialDocument)
    ensures
        r.subject_name@ == ticket.name@,
        r.subject_category@ == ticket.category.spec_label(),
        r.display_title@ == spec_category_title(ticket.category),
        r.display_description@ == spec_category_description(ticket.category),
        r.output_hero_uri@ == spec_category_hero_uri(ticket.category),
        r.issuer_hero_uri@ == spec_category_hero_uri(ticket.category),
        r.output_background_color@ == spec_category_background_color(ticket.category),
        r.issuer_background_color@ == spec_category_background_color(ticket.category),
        r.id@.len() == 21,
        exists|p: DateParts|
            {
                &&& #[trigger] p.wf()
                &&& r.issuance_date@ == timestamp_chars(p)
                &&& r.expiration_date@ == timestamp_chars(spec_add_hours(p, 8))
            },
{
    let id = ticket.create_new_id();
    let parts = local_now_parts();
    build_credential_document(ticket, id.as_str(), &parts)
}

/// Law: for any well-formed Common-Era issuance instant, the expiration
/// instant substituted by the document builder lies exactly eight hours
/// later in civil time, keeps the UTC offset, and — for four-digit years —
/// both instants render in the fixed ISO-8601-with-offset pattern.
pub proof fn lemma_credential_timestamps(p: DateParts)
    requires
        p.wf(),
        1 <= p.year <= 9998,
    ensures
        spec_total_seconds(spec_add_hours(p, 8)) == spec_total_seconds(p) + 8 * 3600,
        spec_add_hours(p, 8).offset_seconds == p.offset_seconds,
        is_iso8601_offset_timestamp(timestamp_chars(p)),
        is_iso8601_offset_timestamp(timestamp_chars(spec_add_hours(p, 8))),
{
    lemma_add_hours_advances_seconds(p, 8);
    lemma_timestamp_matches_pattern(p);
    lemma_timestamp_matches_pattern(spec_add_hours(p, 8));
}

} // verus!

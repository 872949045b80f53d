use vstd::prelude::*;

use crate::timestamp::{
    add_hours, format_timestamp, local_now_parts, spec_add_hours, timestamp_chars, DateParts,
};

verus! {

/// Result entity returned by the external issuer for one credential offer:
/// an invitation identifier and the out-of-band content that is rendered
/// as a QR code.
pub struct ResponseData {
    pub _invitation_id: String,
    pub oob_content_data: String,
}

/// The four ticket categories a visitor can ask for. The set is closed:
/// there is no other way to build one than these variants.
#[derive(Clone, Copy, Debug, PartialEq, Eq, Structural)]
pub enum Category {
    Standard,
    Vip,
    Fast,
    Extra,
}

impl Category {
    /// Human-readable label of the category, used as the credential
    /// subject's category text.
    pub open spec fn spec_label(self) -> Seq<char> {
        match self {
            Category::Standard => "Standard"@,
            Category::Vip => "Vip"@,
            Category::Fast => "Fast Pass"@,
            Category::Extra => "Extra"@,
        }
    }

    /// Renders the label: `Fast` reads "Fast Pass", the others read as
    /// their variant names.
    pub fn label(&self) -> (r: &'static str)
        ensures
            r@ == self.spec_label(),
    {
        match self {
            Category::Standard => "Standard",
            Category::Vip => "Vip",
            Category::Fast => "Fast Pass",
            Category::Extra => "Extra",
        }
    }
}

/// Finite state of one chat session: greet, collect the visitor's name,
/// then collect the ticket category for that name.
#[derive(Clone, Default)]
pub enum State {
    #[default]
    Start,
    ReceiveName,
    ReceiveCategory { name: String },
}

/// A ticket request: the visitor's name and the chosen category.
pub struct Ticket {
    pub name: String,
    pub category: Category,
}

/// Display metadata of one category: the texts and style fields that are
/// substituted into the credential template.
pub struct CategoryData {
    pub title: &'static str,
    pub description: &'static str,
    pub hero_uri: &'static str,
    pub background_color: &'static str,
}

/// Characters of the URL-safe identifier alphabet (`A-Z`, `a-z`, `0-9`,
/// `_` and `-`).
pub open spec fn is_id_char(c: char) -> bool {
    ('a' <= c && c <= 'z') || ('A' <= c && c <= 'Z') || ('0' <= c && c <= '9') || c == '_' || c
        == '-'
}

impl Ticket {
    /// Creates a new unique ID for the ticket.
    ///
    /// Relies on `nanoid::format` with the URL-safe alphabet and size 21:
    /// the result holds exactly `size` characters, each drawn from that
    /// alphabet. The identifier is random, so nothing more is promised of
    /// its value.
    #[verifier::external_body]
    pub fn create_new_id(&self) -> (r: String)
        ensures
            r@.len() == 21,
            forall|i: int| 0 <= i < r@.len() ==> is_id_char(#[trigger] r@[i]),
    {
        nanoid::format(nanoid::rngs::default, &nanoid::alphabet::SAFE, 21)
    }

    /// Generates the issuance date of the ticket: the current local time,
    /// rendered in the fixed ISO-8601-with-offset form.
    pub fn generate_issuance_date(&self) -> (r: String)
        ensures
            exists|p: DateParts| p.wf() && r@ == timestamp_chars(p),
    {
        let parts = local_now_parts();
        format_timestamp(&parts)
    }

    /// Generates the expiration date: the current local time advanced by
    /// the given number of hours, rendered in the same fixed form.
    pub fn generate_expiration_date(&self, hours: u32) -> (r: String)
        requires
            hours <= 8784,
        ensures
            exists|p: DateParts|
                p.wf() && r@ == timestamp_chars(spec_add_hours(p, hours as int)),
    {
        let parts = local_now_parts();
        let expiration = add_hours(&parts, hours);
        format_timestamp(&expiration)
    }
}

} // verus!

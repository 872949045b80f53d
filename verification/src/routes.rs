use vstd::prelude::*;

use crate::models::{Category, Ticket};
use crate::utils::{json_string_field, spec_json_string_field, str_eq};

verus! {

/// Simple endpoint body to check server status.
pub fn ping() -> (r: &'static str)
    ensures
        r@ == "pong"@,
{
    "pong"
}

/// Validation failure of a ticket request: a missing field, or a category
/// string outside the four variants. Surfaced as a 422 reply.
#[derive(Clone, Copy, Debug, PartialEq, Eq, Structural)]
pub struct ValidationError;

/// Relay failure: the external issuer was unreachable, answered outside
/// the 2xx range, or returned an unusable body. Surfaced as a 500 reply.
#[derive(Clone, Copy, Debug, PartialEq, Eq, Structural)]
pub struct IssuanceRelayError;

/// The category a request string names, if any: exactly the four variant
/// names are accepted.
pub open spec fn spec_category_of(s: Seq<char>) -> Option<Category> {
    if s == "Standard"@ {
        Some(Category::Standard)
    } else if s == "Vip"@ {
        Some(Category::Vip)
    } else if s == "Fast"@ {
        Some(Category::Fast)
    } else if s == "Extra"@ {
        Some(Category::Extra)
    } else {
        None
    }
}

/// Reads a category from its request string.
pub fn category_from_str(s: &str) -> (r: Option<Category>)
    ensures
        r == spec_category_of(s@),
{
    if str_eq(s, "Standard") {
        Some(Category::Standard)
    } else if str_eq(s, "Vip") {
        Some(Category::Vip)
    } else if str_eq(s, "Fast") {
        Some(Category::Fast)
    } else if str_eq(s, "Extra") {
        Some(Category::Extra)
    } else {
        None
    }
}

/// Validates the two extracted fields of an issuance request: both must
/// be present and the category must name one of the four variants; the
/// name is taken verbatim, however it looks.
pub fn validate_ticket_fields(name: Option<String>, category: Option<String>) -> (r: Result<
    Ticket,
    ValidationError,
>)
    ensures
        r is Ok <==> (name is Some && (category matches Some(c) && spec_category_of(c@) is Some)),
        r matches Ok(t) ==> (name matches Some(n) && t.name@ == n@) && (category matches Some(c)
            && Some(t.category) == spec_category_of(c@)),
{
    match (name, category) {
        (Some(n), Some(c)) => match category_from_str(c.as_str()) {
            Some(cat) => Ok(Ticket { name: n, category: cat }),
            None => Err(ValidationError),
        },
        _ => Err(ValidationError),
    }
}

/// Parses an issuance request body: a JSON object with a "name" string
/// and a "category" string naming one of the four categories. Exactly the
/// bodies that miss either field or name no category are rejected.
pub fn parse_ticket(body: &str) -> (r: Result<Ticket, ValidationError>)
    ensures
        r is Ok <==> (spec_json_string_field(body@, "name"@) is Some && (spec_json_string_field(
            body@,
            "category"@,
        ) matches Some(c) && spec_category_of(c) is Some)),
        r matches Ok(t) ==> spec_json_string_field(body@, "name"@) == Some(t.name@) && (
        spec_json_string_field(body@, "category"@) matches Some(c) && Some(t.category)
            == spec_category_of(c)),
{
    let name = json_string_field(body, "name");
    let category = json_string_field(body, "category");
    validate_ticket_fields(name, category)
}

/// Classifies the issuer's reply to the relayed credential document: a
/// status in the 2xx range with a readable JSON body passes that body
/// through verbatim; anything else is a relay failure.
pub fn relay_outcome(status: u16, body: Option<String>) -> (r: Result<String, IssuanceRelayError>)
    ensures
        r is Ok <==> (200 <= status < 300 && body is Some),
        r matches Ok(b) ==> body matches Some(x) && b@ == x@,
{
    if 200 <= status && status < 300 {
        match body {
            Some(b) => Ok(b),
            None => Err(IssuanceRelayError),
        }
    } else {
        Err(IssuanceRelayError)
    }
}

/// Body of the reply for 404 Not Found errors.
pub fn handle_not_found() -> (r: &'static str)
    ensures
        r@ == "{\"error\":404,\"message\":\"Resource not found\"}"@,
{
    "{\"error\":404,\"message\":\"Resource not found\"}"
}

/// Body of the reply for 500 Internal Server errors.
pub fn handle_just_500() -> (r: &'static str)
    ensures
        r@ == "{\"error\":500,\"message\":\"Internal server error\"}"@,
{
    "{\"error\":500,\"message\":\"Internal server error\"}"
}

/// Body of the reply for 422 Unprocessable Entity errors (validation
/// failures).
pub fn handle_unproccessable_entity() -> (r: &'static str)
    ensures
        r@ == "{\"error\":422,\"message\":\"Unprocessable entity: Validation failed\"}"@,
{
    "{\"error\":422,\"message\":\"Unprocessable entity: Validation failed\"}"
}

} // verus!

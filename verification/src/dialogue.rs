use vstd::prelude::*;

use crate::models::{ResponseData, State};
use crate::utils::{
    generate_qr_image, json_string_field, qr_encodable, spec_json_string_field, spec_qr_image_ok,
    QrEncodingError, QrImage,
};

verus! {

/// A request the chat controller hands to the issuance service: the
/// collected name and the raw category selection, which the service
/// validates.
pub struct TicketRequest {
    pub name: String,
    pub category: String,
}

/// One inbound chat event: a plain message, or a selection from the
/// inline keyboard.
pub enum ChatEvent {
    Message { text: Option<String> },
    Selection { data: Option<String> },
}

/// The outcome of one dialogue step: the state the session moves to
/// (`None` closes it), an optional reply, whether the category keyboard
/// is shown with the reply, and an optional issuance request.
pub struct StepOutcome {
    pub next: Option<State>,
    pub reply: Option<String>,
    pub show_keyboard: bool,
    pub issue: Option<TicketRequest>,
}

/// The dialogue transition table: where each state moves on each event.
/// The session is only closed by a completed issuance, never here.
pub open spec fn spec_next_state(s: State, e: ChatEvent) -> Option<State> {
    match s {
        State::Start => match e {
            ChatEvent::Message { .. } => Some(State::ReceiveName),
            ChatEvent::Selection { .. } => Some(State::Start),
        },
        State::ReceiveName => match e {
            ChatEvent::Message { text: Some(t) } => Some(State::ReceiveCategory { name: t }),
            _ => Some(State::ReceiveName),
        },
        State::ReceiveCategory { name } => Some(State::ReceiveCategory { name }),
    }
}

/// First contact: greet and move to collecting the visitor's name.
pub fn start() -> (r: StepOutcome)
    ensures
        r.next == Some(State::ReceiveName),
        r.reply matches Some(m) && m@ == "Welcome! Please enter the visitor's full name."@,
        !r.show_keyboard,
        r.issue is None,
{
    StepOutcome {
        next: Some(State::ReceiveName),
        reply: Some("Welcome! Please enter the visitor's full name.".to_owned()),
        show_keyboard: false,
        issue: None,
    }
}

/// Name collection: with a text, keep it as the name and present the
/// category choices; without one, ask again.
pub fn receive_name(text: Option<String>) -> (r: StepOutcome)
    ensures
        r.next == spec_next_state(State::ReceiveName, ChatEvent::Message { text }),
        text matches Some(n) ==> r.next == Some(State::ReceiveCategory { name: n })
            && (r.reply matches Some(m) && m@ == "Choose your ticket type:"@) && r.show_keyboard,
        text is None ==> r.next == Some(State::ReceiveName) && (r.reply matches Some(m) && m@
            == "Please enter a valid name."@) && !r.show_keyboard,
        r.issue is None,
{
    match text {
        Some(name) => StepOutcome {
            next: Some(State::ReceiveCategory { name }),
            reply: Some("Choose your ticket type:".to_owned()),
            show_keyboard: true,
            issue: None,
        },
        None => StepOutcome {
            next: Some(State::ReceiveName),
            reply: Some("Please enter a valid name.".to_owned()),
            show_keyboard: false,
            issue: None,
        },
    }
}

/// Category collection: a selection while a name is on file asks for the
/// issuance of that ticket and announces it; the session stage is kept
/// until the issuance outcome comes back. Anything else changes nothing.
pub fn receive_category(state: State, data: Option<String>) -> (r: StepOutcome)
    ensures
        r.next == spec_next_state(state, ChatEvent::Selection { data }),
        state matches State::ReceiveCategory { name } ==> data matches Some(c) ==> ((
        r.issue matches Some(t) && t.name@ == name@ && t.category@ == c@) && (
        r.reply matches Some(m) && m@ == "Processing ticket for "@ + name@ + " ("@ + c@ + ")"@)),
        !(state is ReceiveCategory && data is Some) ==> r.issue is None && r.reply is None,
        !r.show_keyboard,
{
    match state {
        State::ReceiveCategory { name } => match data {
            Some(category) => {
                let message = "Processing ticket for ".to_owned().concat(name.as_str()).concat(
                    " (",
                ).concat(category.as_str()).concat(")");
                proof {
                    assert(message@ =~= "Processing ticket for "@ + name@ + " ("@ + category@
                        + ")"@);
                }
                StepOutcome {
                    next: Some(State::ReceiveCategory { name: name.clone() }),
                    reply: Some(message),
                    show_keyboard: false,
                    issue: Some(TicketRequest { name, category }),
                }
            },
            None => StepOutcome {
                next: Some(State::ReceiveCategory { name }),
                reply: None,
                show_keyboard: false,
                issue: None,
            },
        },
        other => StepOutcome { next: Some(other), reply: None, show_keyboard: false, issue: None },
    }
}

/// The four category choices, in two rows of two, as the inline keyboard
/// presents them.
pub fn make_keyboard() -> (r: Vec<Vec<String>>)
    ensures
        r@.len() == 2,
        r@[0]@.len() == 2 && r@[1]@.len() == 2,
        r@[0]@[0]@ == "Standard"@ && r@[0]@[1]@ == "Vip"@,
        r@[1]@[0]@ == "Fast"@ && r@[1]@[1]@ == "Extra"@,
{
    let mut first_row: Vec<String> = Vec::new();
    first_row.push("Standard".to_owned());
    first_row.push("Vip".to_owned());
    let mut second_row: Vec<String> = Vec::new();
    second_row.push("Fast".to_owned());
    second_row.push("Extra".to_owned());
    let mut keyboard: Vec<Vec<String>> = Vec::new();
    keyboard.push(first_row);
    keyboard.push(second_row);
    keyboard
}

/// One step of the dialogue dispatcher: routes the event by the session
/// state, as the bot's update handlers are routed.
pub fn dialogue_step(state: State, event: ChatEvent) -> (r: StepOutcome)
    ensures
        r.next == spec_next_state(state, event),
        state matches State::ReceiveCategory { name } ==> event matches ChatEvent::Selection {
            data: Some(c),
        } ==> (r.issue matches Some(t) && t.name@ == name@ && t.category@ == c@),
        !(state is ReceiveCategory && event matches ChatEvent::Selection { data: Some(_) })
            ==> r.issue is None,
{
    match event {
        ChatEvent::Message { text } => match state {
            State::Start => start(),
            State::ReceiveName => receive_name(text),
            State::ReceiveCategory { name } => StepOutcome {
                next: Some(State::ReceiveCategory { name }),
                reply: None,
                show_keyboard: false,
                issue: None,
            },
        },
        ChatEvent::Selection { data } => receive_category(state, data),
    }
}

/// What closes a successful session: the decoded issuer response, the QR
/// image of its out-of-band content, and the confirmation to send.
pub struct IssuanceCompletion {
    pub response: ResponseData,
    pub image: QrImage,
    pub confirmation: String,
    /// The session state after completion; a completed session is closed.
    pub next: Option<State>,
}

/// Failure of the completion step.
#[derive(Clone, Copy, Debug, PartialEq, Eq, Structural)]
pub enum CompletionError {
    /// The issuer's reply held no invitation id or no out-of-band content.
    MalformedResponse,
    /// The out-of-band content could not be rendered as a QR code.
    QrEncoding(QrEncodingError),
}

/// Closes a session after the issuance call came back: decodes the
/// issuer's response, renders its out-of-band content as a QR image, and
/// ends the session with a confirmation. It succeeds exactly when the
/// response carries both fields and the out-of-band content fits a QR
/// symbol.
pub fn complete_issuance(response_body: &str) -> (r: Result<IssuanceCompletion, CompletionError>)
    ensures
        r is Ok <==> (spec_json_string_field(response_body@, "invitationId"@) is Some && (
        spec_json_string_field(response_body@, "oobContentData"@) matches Some(o) && qr_encodable(
            o,
        ))),
        r matches Ok(c) ==> ({
            &&& spec_json_string_field(response_body@, "invitationId"@) == Some(
                c.response._invitation_id@,
            )
            &&& spec_json_string_field(response_body@, "oobContentData"@) == Some(
                c.response.oob_content_data@,
            )
            &&& spec_qr_image_ok(c.image, c.response.oob_content_data@)
            &&& c.confirmation@ == "Your ticket has been processed."@
            &&& c.next is None
        }),
        r == Result::<IssuanceCompletion, CompletionError>::Err(CompletionError::MalformedResponse)
            <==> (spec_json_string_field(response_body@, "invitationId"@) is None
            || spec_json_string_field(response_body@, "oobContentData"@) is None),
{
    let invitation_id = match json_string_field(response_body, "invitationId") {
        Some(v) => v,
        None => {
            return Err(CompletionError::MalformedResponse);
        },
    };
    let oob_content_data = match json_string_field(response_body, "oobContentData") {
        Some(v) => v,
        None => {
            return Err(CompletionError::MalformedResponse);
        },
    };
    let image = match generate_qr_image(oob_content_data.as_str()) {
        Ok(img) => img,
        Err(e) => {
            return Err(CompletionError::QrEncoding(e));
        },
    };
    Ok(
        IssuanceCompletion {
            response: ResponseData { _invitation_id: invitation_id, oob_content_data },
            image,
            confirmation: "Your ticket has been processed.".to_owned(),
            next: None,
        },
    )
}

/// Stage rank of a session: Start, then ReceiveName, then ReceiveCategory;
/// a closed session ranks above all three.
pub open spec fn spec_stage_rank(s: Option<State>) -> int {
    match s {
        Some(State::Start) => 0,
        Some(State::ReceiveName) => 1,
        Some(State::ReceiveCategory { .. }) => 2,
        None => 3,
    }
}

/// Law: the dialogue only moves forward. No event moves a session to an
/// earlier stage; a message in Start always advances to ReceiveName; a
/// text in ReceiveName always advances to ReceiveCategory carrying that
/// text as the name; and a selection in ReceiveCategory keeps the stage —
/// only a completed issuance, whose outcome carries no next state, closes
/// the session.
pub proof fn lemma_dialogue_never_regresses(s: State, e: ChatEvent)
    ensures
        spec_stage_rank(spec_next_state(s, e)) >= spec_stage_rank(Some(s)),
        (s is Start && e is Message) ==> spec_next_state(s, e) == Some(State::ReceiveName),
        s is ReceiveName ==> (e matches ChatEvent::Message { text: Some(t) }
            ==> spec_next_state(s, e) == Some(State::ReceiveCategory { name: t })),
        s matches State::ReceiveCategory { name } ==> spec_next_state(s, e) == Some(
            State::ReceiveCategory { name },
        ),
{
}

} // verus!

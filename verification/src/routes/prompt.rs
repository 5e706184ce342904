//! `POST /prompt`: what is asked of the text model, and how its answer is
//! passed on.

use vstd::prelude::*;

verus! {

/// The body of the request: the selected text and what to do with it.
#[derive(Debug, Clone)]
pub struct PromptRequest {
    pub context: String,
    pub prompt: String,
}

/// The body of the response.
#[derive(Debug, Clone)]
pub enum PromptResponse {
    Result { result: String },
    Error { error: String },
}

/// What came back from the text model.
#[derive(Debug, Clone)]
pub enum Upstream {
    /// It answered; this is the text of its first candidate.
    Answer(String),
    /// It refused the request, with this message.
    Refused(String),
    /// It could not be reached, for this reason.
    Unreachable(String),
}

/// The user's part of the question put to the model.
pub open spec fn user_text(context: Seq<char>) -> Seq<char> {
    "The selected text is: "@ + context
}

/// The instruction given to the model.
pub open spec fn system_text(prompt: Seq<char>) -> Seq<char> {
    "You are a helpful writing assistant. Please help the user to replace the selected text.\n\nYour task is: "@
        + prompt + "\n\nMake sure to provide only exact 1 option as a response."@
}

/// Writes the two texts sent to the model: the user's part, then the
/// instruction.
pub fn question(payload: &PromptRequest) -> (r: (String, String))
    ensures
        r.0@ == user_text(payload.context@),
        r.1@ == system_text(payload.prompt@),
{
    let user = String::from_str("The selected text is: ").concat(payload.context.as_str());
    let system = String::from_str(
        "You are a helpful writing assistant. Please help the user to replace the selected text.\n\nYour task is: ",
    ).concat(payload.prompt.as_str()).concat(
        "\n\nMake sure to provide only exact 1 option as a response.",
    );
    (user, system)
}

/// Passes the model's answer on: 200 with the text where it answered, 400
/// with its message where it refused, 500 with the reason where it could
/// not be reached.
pub fn handler(upstream: Upstream) -> (r: (u16, PromptResponse))
    ensures
        match upstream {
            Upstream::Answer(t) => r.0 == 200 && r.1 == (PromptResponse::Result { result: t }),
            Upstream::Refused(m) => r.0 == 400 && r.1 == (PromptResponse::Error { error: m }),
            Upstream::Unreachable(m) => r.0 == 500 && r.1 == (PromptResponse::Error { error: m }),
        },
{
    match upstream {
        Upstream::Answer(t) => (200, PromptResponse::Result { result: t }),
        Upstream::Refused(m) => (400, PromptResponse::Error { error: m }),
        Upstream::Unreachable(m) => (500, PromptResponse::Error { error: m }),
    }
}

} // verus!

//! The content of the messages the workflow sends: a title, a description
//! and an optional colour, kept as plain values. The unverified shell
//! translates them into whatever the messaging gateway expects.

use vstd::prelude::*;
use vstd::string::StringExecFns;

verus! {

#[derive(Clone, Copy, Debug, PartialEq, Eq, Structural)]
pub enum EmbedColour {
    Red,
    DarkGreen,
}

/// The displayable parts of one message.
#[derive(Clone, Debug)]
pub struct EmbedData {
    pub title: Option<String>,
    pub description: Option<String>,
    pub colour: Option<EmbedColour>,
}

/// Which confirmation the session decided to show.
#[derive(Clone, Copy, Debug, PartialEq, Eq, Structural)]
pub enum ConfirmationKind {
    /// The person approved, but an authentication was already in place.
    AlreadyAuthenticated,
    /// The person approved and the fresh authentication was stored.
    Approved,
    /// The person approved but storing the authentication failed.
    InternalError,
    /// The person denied the request.
    Denied,
}

pub open spec fn login_title() -> Seq<char> {
    "Minecraft login"@
}

pub open spec fn prompt_text(subject_account: Seq<char>) -> Seq<char> {
    "The Minecraft user "@ + subject_account
        + " tried to login on the Minecraft server. Was it you?"@
}

pub open spec fn confirmation_text(kind: ConfirmationKind) -> Seq<char> {
    match kind {
        ConfirmationKind::AlreadyAuthenticated => "You are already logged in on the Minecraft server."@,
        ConfirmationKind::Approved => "The login request has been approved. You can now join the protected Minecraft servers for the next 30 minutes."@,
        ConfirmationKind::InternalError => "An internal error occured. Please try again or contact Mr. Erkaberka if this problem persists!"@,
        ConfirmationKind::Denied => "The login request has been denied. Contact the Discord moderators if you keep receiving login requests from me."@,
    }
}

pub open spec fn confirmation_colour(kind: ConfirmationKind) -> EmbedColour {
    match kind {
        ConfirmationKind::Approved => EmbedColour::DarkGreen,
        _ => EmbedColour::Red,
    }
}

/// The private prompt asking the person to confirm the login attempt, naming
/// the account it concerns.
pub fn prompt_embed(subject_account: &str) -> (e: EmbedData)
    ensures
        e.title matches Some(t) && t@ == login_title(),
        e.description matches Some(d) && d@ == prompt_text(subject_account@),
        e.colour is None,
{
    let mut description = String::from_str("The Minecraft user ");
    description.append(subject_account);
    description.append(" tried to login on the Minecraft server. Was it you?");
    EmbedData {
        title: Some(String::from_str("Minecraft login")),
        description: Some(description),
        colour: None,
    }
}

/// The confirmation shown once the session decided: its text names the
/// outcome, and only a stored approval is shown in green.
pub fn confirmation_embed(kind: ConfirmationKind) -> (e: EmbedData)
    ensures
        e.title matches Some(t) && t@ == login_title(),
        e.description matches Some(d) && d@ == confirmation_text(kind),
        e.colour == Some(confirmation_colour(kind)),
{
    let description = match kind {
        ConfirmationKind::AlreadyAuthenticated => String::from_str(
            "You are already logged in on the Minecraft server.",
        ),
        ConfirmationKind::Approved => String::from_str(
            "The login request has been approved. You can now join the protected Minecraft servers for the next 30 minutes.",
        ),
        ConfirmationKind::InternalError => String::from_str(
            "An internal error occured. Please try again or contact Mr. Erkaberka if this problem persists!",
        ),
        ConfirmationKind::Denied => String::from_str(
            "The login request has been denied. Contact the Discord moderators if you keep receiving login requests from me.",
        ),
    };
    let colour = match kind {
        ConfirmationKind::Approved => EmbedColour::DarkGreen,
        _ => EmbedColour::Red,
    };
    EmbedData {
        title: Some(String::from_str("Minecraft login")),
        description: Some(description),
        colour: Some(colour),
    }
}

} // verus!

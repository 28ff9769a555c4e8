//! The slash commands' logic: what each command replies, given what the
//! record store said. The chat-platform plumbing — registration of the
//! descriptors, the interaction transport — lives in the unverified shell;
//! it asks these functions what to do and ships the replies back.

use vstd::prelude::*;
use vstd::string::StringExecFns;
use rand::Rng;
use crate::database::DatabaseError;
use crate::embed::EmbedColour;
use crate::embed::EmbedData;

verus! {

/// Length of a fresh registration code.
pub const REG_CODE_LEN: usize = 32;

/// An ASCII letter or digit: the alphabet of registration codes.
pub open spec fn is_code_char(c: char) -> bool {
    ||| (65 <= c as u32 && c as u32 <= 90)
    ||| (97 <= c as u32 && c as u32 <= 122)
    ||| (48 <= c as u32 && c as u32 <= 57)
}

/// Relies on rand: `thread_rng` sampled through the `Alphanumeric`
/// distribution draws uniformly from the ASCII letters and digits. The draw
/// is random, so nothing holds of every outcome but the length and the
/// alphabet.
#[verifier::external_body]
fn fresh_registration_code() -> (code: String)
    ensures
        code@.len() == REG_CODE_LEN,
        forall|i: int| 0 <= i < code@.len() ==> is_code_char(#[trigger] code@[i]),
{
    rand::thread_rng()
        .sample_iter(&rand::distributions::Alphanumeric)
        .take(REG_CODE_LEN)
        .map(char::from)
        .collect()
}

pub open spec fn registration_title() -> Seq<char> {
    "Minecraft registration"@
}

pub open spec fn unregistration_title() -> Seq<char> {
    "Minecraft unregistration"@
}

pub open spec fn registration_instructions(reg_code: Seq<char>) -> Seq<char> {
    "To complete the registration process, please open Minecraft, click on Multiplayer and join the server\n\n```\nminecraft.wahlberger.dev\n```\n\nOnce joined, enter the following command in minecraft:\n\n```\n/register "@
        + reg_code + "\n```\n\nto link your Minecraft account to your Discord account."@
}

pub open spec fn pending_registration_text(reg_code: Seq<char>) -> Seq<char> {
    "You have a pending registration status. "@ + registration_instructions(reg_code)
}

pub open spec fn new_registration_text(reg_code: Seq<char>) -> Seq<char> {
    "There we go! I have added a registration request for you! "@ + registration_instructions(
        reg_code,
    )
}

/// The body shared by the two instruction replies.
fn registration_instructions_string(reg_code: &str) -> (text: String)
    ensures
        text@ == registration_instructions(reg_code@),
{
    let mut text = String::from_str(
        "To complete the registration process, please open Minecraft, click on Multiplayer and join the server\n\n```\nminecraft.wahlberger.dev\n```\n\nOnce joined, enter the following command in minecraft:\n\n```\n/register ",
    );
    text.append(reg_code);
    text.append("\n```\n\nto link your Minecraft account to your Discord account.");
    text
}

/// The ping command.
pub struct PongCommand;

impl PongCommand {
    pub fn new() -> (c: PongCommand) {
        PongCommand {  }
    }

    pub fn name(&self) -> (n: String)
        ensures
            n@ == "ping"@,
    {
        String::from_str("ping")
    }

    pub fn description(&self) -> (d: String)
        ensures
            d@ == "A ping command"@,
    {
        String::from_str("A ping command")
    }

    /// The ping command always replies the same greeting.
    pub fn run(&self) -> (e: EmbedData)
        ensures
            e.title matches Some(t) && t@ == "Ping pong"@,
            e.description matches Some(d) && d@ == "Pong!"@,
            e.colour == Some(EmbedColour::DarkGreen),
    {
        EmbedData {
            title: Some(String::from_str("Ping pong")),
            description: Some(String::from_str("Pong!")),
            colour: Some(EmbedColour::DarkGreen),
        }
    }
}

/// After the registration-status lookup: what the register command does next.
pub enum RegisterStage {
    /// The person is registered: look up the linked Minecraft user next.
    CheckMinecraftUser,
    /// The person is not registered: store a registration under this fresh
    /// code.
    CreateRegistration { reg_code: String },
    /// The lookup itself failed.
    Fail(DatabaseError),
}

/// After the Minecraft-user lookup: what the register command does next.
pub enum RegisterLookupStage {
    /// The account is fully registered already: this is the reply.
    Reply(EmbedData),
    /// Registration is pending: fetch the stored code next.
    FetchRegCode,
    /// The lookup itself failed.
    Fail(DatabaseError),
}

/// The command registering a person on the Minecraft server.
pub struct RegisterCommand;

impl RegisterCommand {
    pub fn new() -> (c: RegisterCommand) {
        RegisterCommand {  }
    }

    pub fn name(&self) -> (n: String)
        ensures
            n@ == "register"@,
    {
        String::from_str("register")
    }

    pub fn description(&self) -> (d: String)
        ensures
            d@ == "Register yourself to the Minecraft server"@,
    {
        String::from_str("Register yourself to the Minecraft server")
    }

    /// Digests the registration-status lookup. An unregistered person gets a
    /// fresh code to register under; only the "not registered" error means
    /// that — any other failure is passed on.
    pub fn on_registration_status(status: Result<bool, DatabaseError>) -> (r: RegisterStage)
        ensures
            status is Ok ==> r is CheckMinecraftUser,
            status matches Err(e) ==> match e {
                DatabaseError::PlayerNotRegistered(_) => (r matches
                    RegisterStage::CreateRegistration { reg_code }
                    && reg_code@.len() == REG_CODE_LEN
                    && forall|i: int| 0 <= i < reg_code@.len() ==> is_code_char(
                        #[trigger] reg_code@[i],
                    )),
                _ => r == RegisterStage::Fail(e),
            },
    {
        match status {
            Ok(_) => RegisterStage::CheckMinecraftUser,
            Err(e) => match e {
                DatabaseError::PlayerNotRegistered(_) => RegisterStage::CreateRegistration {
                    reg_code: fresh_registration_code(),
                },
                _ => RegisterStage::Fail(e),
            },
        }
    }

    /// Digests the Minecraft-user lookup for an already-registered person: a
    /// linked user means the registration is complete and says so; a missing
    /// link means the registration is still pending.
    pub fn on_minecraft_user(user: Result<String, DatabaseError>) -> (r: RegisterLookupStage)
        ensures
            user is Ok ==> (r matches RegisterLookupStage::Reply(e)
                && (e.title matches Some(t) && t@ == registration_title())
                && (e.description matches Some(d) && d@
                    == "You are already registered on the Minecraft server. Please unregister before trying to register again."@)
                && e.colour == Some(EmbedColour::Red)),
            user matches Err(e) ==> match e {
                DatabaseError::MissingMinecraftId(_) => r is FetchRegCode,
                _ => r == RegisterLookupStage::Fail(e),
            },
    {
        match user {
            Ok(_) => RegisterLookupStage::Reply(
                EmbedData {
                    title: Some(String::from_str("Minecraft registration")),
                    description: Some(String::from_str(
                        "You are already registered on the Minecraft server. Please unregister before trying to register again.",
                    )),
                    colour: Some(EmbedColour::Red),
                },
            ),
            Err(e) => match e {
                DatabaseError::MissingMinecraftId(_) => RegisterLookupStage::FetchRegCode,
                _ => RegisterLookupStage::Fail(e),
            },
        }
    }

    /// Digests the stored-code lookup for a pending registration: the reply
    /// repeats the instructions under that code.
    pub fn on_reg_code(code: Result<String, DatabaseError>) -> (r: Result<EmbedData, DatabaseError>)
        ensures
            code matches Ok(c) ==> (r matches Ok(e)
                && (e.title matches Some(t) && t@ == registration_title())
                && (e.description matches Some(d) && d@ == pending_registration_text(c@))
                && e.colour == Some(EmbedColour::Red)),
            code matches Err(err) ==> r == Err::<EmbedData, DatabaseError>(err),
    {
        match code {
            Ok(c) => {
                let mut description = String::from_str("You have a pending registration status. ");
                description.append(registration_instructions_string(c.as_str()).as_str());
                Ok(EmbedData {
                    title: Some(String::from_str("Minecraft registration")),
                    description: Some(description),
                    colour: Some(EmbedColour::Red),
                })
            },
            Err(err) => Err(err),
        }
    }

    /// Digests the outcome of storing a fresh registration: on success the
    /// reply carries the instructions under the new code.
    pub fn on_registration_added(reg_code: &str, added: Result<(), DatabaseError>) -> (r: Result<
        EmbedData,
        DatabaseError,
    >)
        ensures
            added is Ok ==> (r matches Ok(e)
                && (e.title matches Some(t) && t@ == registration_title())
                && (e.description matches Some(d) && d@ == new_registration_text(reg_code@))
                && e.colour == Some(EmbedColour::DarkGreen)),
            added matches Err(err) ==> r == Err::<EmbedData, DatabaseError>(err),
    {
        match added {
            Ok(_) => {
                let mut description = String::from_str(
                    "There we go! I have added a registration request for you! ",
                );
                description.append(registration_instructions_string(reg_code).as_str());
                Ok(EmbedData {
                    title: Some(String::from_str("Minecraft registration")),
                    description: Some(description),
                    colour: Some(EmbedColour::DarkGreen),
                })
            },
            Err(err) => Err(err),
        }
    }
}

/// After the registration-status lookup: what the unregister command does
/// next.
pub enum UnregisterStage {
    /// The person is registered: delete the registration next.
    DeletePlayer,
    /// The person was never registered: this is the reply.
    Reply(EmbedData),
    /// The lookup itself failed.
    Fail(DatabaseError),
}

/// The command removing a person's registration.
pub struct UnregisterCommand;

impl UnregisterCommand {
    pub fn new() -> (c: UnregisterCommand) {
        UnregisterCommand {  }
    }

    pub fn name(&self) -> (n: String)
        ensures
            n@ == "unregister"@,
    {
        String::from_str("unregister")
    }

    pub fn description(&self) -> (d: String)
        ensures
            d@ == "Unregister yourself from the Minecraft server"@,
    {
        String::from_str("Unregister yourself from the Minecraft server")
    }

    /// Digests the registration-status lookup: a registered person's entry is
    /// deleted next; one who never registered is told so; any other failure
    /// is passed on.
    pub fn on_registration_status(status: Result<bool, DatabaseError>) -> (r: UnregisterStage)
        ensures
            status is Ok ==> r is DeletePlayer,
            status matches Err(e) ==> match e {
                DatabaseError::PlayerNotRegistered(_) => (r matches UnregisterStage::Reply(em)
                    && (em.title matches Some(t) && t@ == unregistration_title())
                    && (em.description matches Some(d) && d@
                        == "You are not registered on the Minecraft server."@)
                    && em.colour == Some(EmbedColour::Red)),
                _ => r == UnregisterStage::Fail(e),
            },
    {
        match status {
            Ok(_) => UnregisterStage::DeletePlayer,
            Err(e) => match e {
                DatabaseError::PlayerNotRegistered(_) => UnregisterStage::Reply(
                    EmbedData {
                        title: Some(String::from_str("Minecraft unregistration")),
                        description: Some(String::from_str(
                            "You are not registered on the Minecraft server.",
                        )),
                        colour: Some(EmbedColour::Red),
                    },
                ),
                _ => UnregisterStage::Fail(e),
            },
        }
    }

    /// Digests the deletion outcome: success is confirmed to the person; a
    /// failure is passed on.
    pub fn on_player_deleted(deleted: Result<(), DatabaseError>) -> (r: Result<
        EmbedData,
        DatabaseError,
    >)
        ensures
            deleted is Ok ==> (r matches Ok(e)
                && (e.title matches Some(t) && t@ == unregistration_title())
                && (e.description matches Some(d) && d@
                    == "You have been successfully unregistered from the Minecraft server"@)
                && e.colour == Some(EmbedColour::DarkGreen)),
            deleted matches Err(err) ==> r == Err::<EmbedData, DatabaseError>(err),
    {
        match deleted {
            Ok(_) => Ok(EmbedData {
                title: Some(String::from_str("Minecraft unregistration")),
                description: Some(String::from_str(
                    "You have been successfully unregistered from the Minecraft server",
                )),
                colour: Some(EmbedColour::DarkGreen),
            }),
            Err(err) => Err(err),
        }
    }
}

/// The names of the commands the workflow offers, in the order they are
/// registered.
pub fn command_names() -> (names: Vec<String>)
    ensures
        names@.len() == 3,
        names@[0]@ == "ping"@,
        names@[1]@ == "register"@,
        names@[2]@ == "unregister"@,
{
    let mut names: Vec<String> = Vec::new();
    names.push(String::from_str("ping"));
    names.push(String::from_str("register"));
    names.push(String::from_str("unregister"));
    names
}

/// Finds the first command whose name matches the requested one.
pub fn find_command(names: &Vec<String>, requested: &str) -> (r: Option<usize>)
    ensures
        r matches Some(i) ==> i < names@.len() && names@[i as int]@ == requested@ && forall|j: int|
            0 <= j < i ==> names@[j]@ != requested@,
        r is None ==> forall|j: int| 0 <= j < names@.len() ==> names@[j]@ != requested@,
{
    let wanted = String::from_str(requested);
    let n = names.len();
    let mut i: usize = 0;
    while i < n
        invariant
            0 <= i <= n,
            n == names@.len(),
            wanted@ == requested@,
            forall|j: int| 0 <= j < i ==> names@[j]@ != requested@,
        decreases n - i,
    {
        if names[i] == wanted {
            return Some(i);
        }
        i = i + 1;
    }
    None
}

/// The fallback reply when running a command failed, titled after the
/// command.
pub fn error_embed(command_name: String) -> (e: EmbedData)
    ensures
        e.title == Some(command_name),
        e.description matches Some(d) && d@ == "An error occured, please try again"@,
        e.colour == Some(EmbedColour::Red),
{
    EmbedData {
        title: Some(command_name),
        description: Some(String::from_str("An error occured, please try again")),
        colour: Some(EmbedColour::Red),
    }
}

} // verus!

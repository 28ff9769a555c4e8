//! Interpretation of record-store results.
//!
//! The store itself is an external collaborator: the unverified shell runs
//! the statements and reports what came back as plain values — an affected
//! row count, a single optional column, a count — and the functions here turn
//! each report into the accessor's result or its exact error.

use vstd::prelude::*;
use vstd::string::StringExecFns;

verus! {

/// The errors the record-store accessors produce.
#[derive(Clone, Debug, PartialEq, Eq)]
pub enum DatabaseError {
    InsertError { data: String, why: String },
    DeleteError { data: String, why: String },
    SelectError { data: String, why: String },
    MissingDiscordId(String),
    MissingMinecraftId(String),
    MissingRegistration(String),
    PlayerNotRegistered(String),
    PlayerNotAuthenticated(String),
}

/// What running a single-row lookup yielded.
#[derive(Clone, Debug)]
pub enum RowOutcome {
    /// The row was there and the column held this value.
    Value(String),
    /// The row was there but the column held nothing.
    Null,
    /// The row came back without columns.
    Empty,
    /// The statement itself failed, with the driver's error text.
    QueryFailed(String),
    /// The row was there but the column could not be read, with the driver's
    /// error text.
    DecodeFailed(String),
}

/// What running a count query yielded.
#[derive(Clone, Debug)]
pub enum CountOutcome {
    Count(i64),
    /// The row came back without columns.
    Empty,
    /// The statement itself failed, with the driver's error text.
    QueryFailed(String),
}

/// Interprets the outcome of inserting a player registration: a statement
/// that touched no row is as much a failure as one that did not run.
pub fn add_player_result(outcome: Result<u64, String>) -> (r: Result<(), DatabaseError>)
    ensures
        outcome matches Ok(n) && n > 0 ==> r is Ok,
        outcome matches Ok(n) && n == 0 ==> (r matches Err(e)
            && e matches DatabaseError::InsertError { data, why } && data@ == "player"@
            && why@ == "0 rows inserted!"@),
        outcome matches Err(w) ==> (r matches Err(e)
            && e matches DatabaseError::InsertError { data, why } && data@ == "player"@
            && why == w),
{
    match outcome {
        Ok(n) => {
            if n == 0 {
                Err(DatabaseError::InsertError {
                    data: String::from_str("player"),
                    why: String::from_str("0 rows inserted!"),
                })
            } else {
                Ok(())
            }
        },
        Err(why) => Err(DatabaseError::InsertError { data: String::from_str("player"), why }),
    }
}

/// Interprets the outcome of inserting a fresh authentication.
pub fn add_player_auth_result(outcome: Result<u64, String>) -> (r: Result<(), DatabaseError>)
    ensures
        outcome matches Ok(n) && n > 0 ==> r is Ok,
        outcome matches Ok(n) && n == 0 ==> (r matches Err(e)
            && e matches DatabaseError::InsertError { data, why }
            && data@ == "Player authentication"@ && why@ == "0 rows inserted!"@),
        outcome matches Err(w) ==> (r matches Err(e)
            && e matches DatabaseError::InsertError { data, why }
            && data@ == "Player authentication"@ && why == w),
{
    match outcome {
        Ok(n) => {
            if n == 0 {
                Err(DatabaseError::InsertError {
                    data: String::from_str("Player authentication"),
                    why: String::from_str("0 rows inserted!"),
                })
            } else {
                Ok(())
            }
        },
        Err(why) => Err(DatabaseError::InsertError {
            data: String::from_str("Player authentication"),
            why,
        }),
    }
}

/// Interprets the outcome of deleting a player registration: deleting nobody
/// means the identifier was unknown.
pub fn delete_player_result(discord_id: &str, outcome: Result<u64, String>) -> (r: Result<
    (),
    DatabaseError,
>)
    ensures
        outcome matches Ok(n) && n > 0 ==> r is Ok,
        outcome matches Ok(n) && n == 0 ==> (r matches Err(e)
            && e matches DatabaseError::MissingDiscordId(id) && id@ == discord_id@),
        outcome matches Err(w) ==> (r matches Err(e)
            && e matches DatabaseError::DeleteError { data, why } && data@ == "Discord id"@
            && why == w),
{
    match outcome {
        Ok(n) => {
            if n == 0 {
                Err(DatabaseError::MissingDiscordId(String::from_str(discord_id)))
            } else {
                Ok(())
            }
        },
        Err(why) => Err(DatabaseError::DeleteError { data: String::from_str("Discord id"), why }),
    }
}

/// Interprets the outcome of deleting a player's stale authentication.
pub fn delete_player_auth_result(discord_id: &str, outcome: Result<u64, String>) -> (r: Result<
    (),
    DatabaseError,
>)
    ensures
        outcome matches Ok(n) && n > 0 ==> r is Ok,
        outcome matches Ok(n) && n == 0 ==> (r matches Err(e)
            && e matches DatabaseError::MissingDiscordId(id) && id@ == discord_id@),
        outcome matches Err(w) ==> (r matches Err(e)
            && e matches DatabaseError::DeleteError { data, why }
            && data@ == "Player authentication"@ && why == w),
{
    match outcome {
        Ok(n) => {
            if n == 0 {
                Err(DatabaseError::MissingDiscordId(String::from_str(discord_id)))
            } else {
                Ok(())
            }
        },
        Err(why) => Err(DatabaseError::DeleteError {
            data: String::from_str("Player authentication"),
            why,
        }),
    }
}

/// Interprets the lookup of the Discord identity linked to a Minecraft user.
pub fn get_discord_id_result(minecraft_user_id: &str, row: RowOutcome) -> (r: Result<
    String,
    DatabaseError,
>)
    ensures
        row matches RowOutcome::Value(v) ==> (r matches Ok(id) && id == v),
        row is Null || row is Empty ==> (r matches Err(e)
            && e matches DatabaseError::MissingDiscordId(id) && id@ == minecraft_user_id@),
        row matches RowOutcome::QueryFailed(w) ==> (r matches Err(e)
            && e matches DatabaseError::SelectError { data, why } && data@ == "Discord id"@
            && why == w),
        row matches RowOutcome::DecodeFailed(w) ==> (r matches Err(e)
            && e matches DatabaseError::SelectError { data, why } && data@ == "Discord id"@
            && why == w),
{
    match row {
        RowOutcome::Value(v) => Ok(v),
        RowOutcome::Null => Err(DatabaseError::MissingDiscordId(String::from_str(
            minecraft_user_id,
        ))),
        RowOutcome::Empty => Err(DatabaseError::MissingDiscordId(String::from_str(
            minecraft_user_id,
        ))),
        RowOutcome::QueryFailed(why) => Err(DatabaseError::SelectError {
            data: String::from_str("Discord id"),
            why,
        }),
        RowOutcome::DecodeFailed(why) => Err(DatabaseError::SelectError {
            data: String::from_str("Discord id"),
            why,
        }),
    }
}

/// Interprets the lookup of the Minecraft user linked to a Discord identity.
pub fn get_minecraft_user_result(discord_id: &str, row: RowOutcome) -> (r: Result<
    String,
    DatabaseError,
>)
    ensures
        row matches RowOutcome::Value(v) ==> (r matches Ok(u) && u == v),
        row is Null || row is Empty || row is DecodeFailed ==> (r matches Err(e)
            && e matches DatabaseError::MissingMinecraftId(id) && id@ == discord_id@),
        row matches RowOutcome::QueryFailed(w) ==> (r matches Err(e)
            && e matches DatabaseError::SelectError { data, why }
            && data@ == "Minecraft user name"@ && why == w),
{
    match row {
        RowOutcome::Value(v) => Ok(v),
        RowOutcome::QueryFailed(why) => Err(DatabaseError::SelectError {
            data: String::from_str("Minecraft user name"),
            why,
        }),
        _ => Err(DatabaseError::MissingMinecraftId(String::from_str(discord_id))),
    }
}

/// Interprets the lookup of a player's pending registration code.
pub fn get_reg_code_result(discord_id: &str, row: RowOutcome) -> (r: Result<String, DatabaseError>)
    ensures
        row matches RowOutcome::Value(v) ==> (r matches Ok(c) && c == v),
        row is Null || row is Empty ==> (r matches Err(e)
            && e matches DatabaseError::MissingRegistration(id) && id@ == discord_id@),
        row matches RowOutcome::QueryFailed(w) ==> (r matches Err(e)
            && e matches DatabaseError::SelectError { data, why } && data@ == "Discord id"@
            && why == w),
        row matches RowOutcome::DecodeFailed(w) ==> (r matches Err(e)
            && e matches DatabaseError::SelectError { data, why } && data@ == "registration code"@
            && why == w),
{
    match row {
        RowOutcome::Value(v) => Ok(v),
        RowOutcome::Null => Err(DatabaseError::MissingRegistration(String::from_str(discord_id))),
        RowOutcome::Empty => Err(DatabaseError::MissingRegistration(String::from_str(discord_id))),
        RowOutcome::QueryFailed(why) => Err(DatabaseError::SelectError {
            data: String::from_str("Discord id"),
            why,
        }),
        RowOutcome::DecodeFailed(why) => Err(DatabaseError::SelectError {
            data: String::from_str("registration code"),
            why,
        }),
    }
}

/// Interprets the count of authentications matching an identity and address
/// as the accessor reports it: a count of zero is the "not authenticated"
/// error, anything else confirms the authentication.
pub fn is_player_authenticated_result(discord_id: &str, outcome: CountOutcome) -> (r: Result<
    bool,
    DatabaseError,
>)
    ensures
        outcome matches CountOutcome::Count(k) && k != 0 ==> (r matches Ok(b) && b),
        outcome matches CountOutcome::Count(k) && k == 0 ==> (r matches Err(e)
            && e matches DatabaseError::PlayerNotAuthenticated(id) && id@ == discord_id@),
        outcome is Empty ==> (r matches Err(e)
            && e matches DatabaseError::PlayerNotAuthenticated(id) && id@ == discord_id@),
        outcome matches CountOutcome::QueryFailed(w) ==> (r matches Err(e)
            && e matches DatabaseError::SelectError { data, why } && data@ == "Discord id"@
            && why == w),
{
    match outcome {
        CountOutcome::Count(k) => {
            if k == 0 {
                Err(DatabaseError::PlayerNotAuthenticated(String::from_str(discord_id)))
            } else {
                Ok(true)
            }
        },
        CountOutcome::Empty => Err(DatabaseError::PlayerNotAuthenticated(String::from_str(
            discord_id,
        ))),
        CountOutcome::QueryFailed(why) => Err(DatabaseError::SelectError {
            data: String::from_str("Discord id"),
            why,
        }),
    }
}

/// Interprets the count of registrations for a Discord identity.
pub fn is_player_registered_result(discord_id: &str, outcome: CountOutcome) -> (r: Result<
    bool,
    DatabaseError,
>)
    ensures
        outcome matches CountOutcome::Count(k) && k != 0 ==> (r matches Ok(b) && b),
        outcome matches CountOutcome::Count(k) && k == 0 ==> (r matches Err(e)
            && e matches DatabaseError::PlayerNotRegistered(id) && id@ == discord_id@),
        outcome is Empty ==> (r matches Err(e)
            && e matches DatabaseError::PlayerNotRegistered(id) && id@ == discord_id@),
        outcome matches CountOutcome::QueryFailed(w) ==> (r matches Err(e)
            && e matches DatabaseError::SelectError { data, why } && data@ == "Discord id"@
            && why == w),
{
    match outcome {
        CountOutcome::Count(k) => {
            if k == 0 {
                Err(DatabaseError::PlayerNotRegistered(String::from_str(discord_id)))
            } else {
                Ok(true)
            }
        },
        CountOutcome::Empty => Err(DatabaseError::PlayerNotRegistered(String::from_str(
            discord_id,
        ))),
        CountOutcome::QueryFailed(why) => Err(DatabaseError::SelectError {
            data: String::from_str("Discord id"),
            why,
        }),
    }
}

/// Interprets one column of the authentication request's stored context — the
/// subject account or the origin address — named by `field` in the error.
pub fn request_context_value(field: &str, row: RowOutcome) -> (r: Result<String, DatabaseError>)
    ensures
        row matches RowOutcome::Value(v) ==> (r matches Ok(c) && c == v),
        row is Null || row is Empty ==> (r matches Err(e)
            && e matches DatabaseError::SelectError { data, why } && data@ == field@
            && why@ == "not found"@),
        row matches RowOutcome::QueryFailed(w) ==> (r matches Err(e)
            && e matches DatabaseError::SelectError { data, why } && data@ == field@ && why == w),
        row matches RowOutcome::DecodeFailed(w) ==> (r matches Err(e)
            && e matches DatabaseError::SelectError { data, why } && data@ == field@ && why == w),
{
    match row {
        RowOutcome::Value(v) => Ok(v),
        RowOutcome::Null => Err(DatabaseError::SelectError {
            data: String::from_str(field),
            why: String::from_str("not found"),
        }),
        RowOutcome::Empty => Err(DatabaseError::SelectError {
            data: String::from_str(field),
            why: String::from_str("not found"),
        }),
        RowOutcome::QueryFailed(why) => Err(DatabaseError::SelectError {
            data: String::from_str(field),
            why,
        }),
        RowOutcome::DecodeFailed(why) => Err(DatabaseError::SelectError {
            data: String::from_str(field),
            why,
        }),
    }
}

/// The plain authentication status the orchestrator asks for: no matching
/// authentication simply means "not authenticated"; only a failed statement
/// is an error.
pub fn authentication_status(outcome: CountOutcome) -> (r: Result<bool, DatabaseError>)
    ensures
        outcome matches CountOutcome::Count(k) ==> (r matches Ok(b) && b == (k != 0)),
        outcome is Empty ==> (r matches Ok(b) && !b),
        outcome matches CountOutcome::QueryFailed(w) ==> (r matches Err(e)
            && e matches DatabaseError::SelectError { data, why } && data@ == "Discord id"@
            && why == w),
{
    match outcome {
        CountOutcome::Count(k) => Ok(k != 0),
        CountOutcome::Empty => Ok(false),
        CountOutcome::QueryFailed(why) => Err(DatabaseError::SelectError {
            data: String::from_str("Discord id"),
            why,
        }),
    }
}

} // verus!

use mcauth::database::{
    add_player_auth_result, add_player_result, authentication_status, delete_player_auth_result,
    delete_player_result, get_discord_id_result, get_minecraft_user_result, get_reg_code_result,
    is_player_authenticated_result, is_player_registered_result, CountOutcome, DatabaseError,
    RowOutcome,
};

#[test]
fn insert_interprets_row_counts() {
    assert!(add_player_result(Ok(1)).is_ok());
    assert_eq!(
        add_player_result(Ok(0)),
        Err(DatabaseError::InsertError {
            data: String::from("player"),
            why: String::from("0 rows inserted!"),
        })
    );
    assert_eq!(
        add_player_result(Err(String::from("down"))),
        Err(DatabaseError::InsertError {
            data: String::from("player"),
            why: String::from("down"),
        })
    );
}

#[test]
fn auth_insert_interprets_row_counts() {
    assert!(add_player_auth_result(Ok(2)).is_ok());
    assert_eq!(
        add_player_auth_result(Ok(0)),
        Err(DatabaseError::InsertError {
            data: String::from("Player authentication"),
            why: String::from("0 rows inserted!"),
        })
    );
    assert_eq!(
        add_player_auth_result(Err(String::from("boom"))),
        Err(DatabaseError::InsertError {
            data: String::from("Player authentication"),
            why: String::from("boom"),
        })
    );
}

#[test]
fn delete_interprets_row_counts() {
    assert!(delete_player_result("u1", Ok(1)).is_ok());
    assert_eq!(
        delete_player_result("u1", Ok(0)),
        Err(DatabaseError::MissingDiscordId(String::from("u1")))
    );
    assert_eq!(
        delete_player_result("u1", Err(String::from("down"))),
        Err(DatabaseError::DeleteError {
            data: String::from("Discord id"),
            why: String::from("down"),
        })
    );
}

#[test]
fn auth_delete_interprets_row_counts() {
    assert!(delete_player_auth_result("u1", Ok(1)).is_ok());
    assert_eq!(
        delete_player_auth_result("u1", Ok(0)),
        Err(DatabaseError::MissingDiscordId(String::from("u1")))
    );
    assert_eq!(
        delete_player_auth_result("u1", Err(String::from("down"))),
        Err(DatabaseError::DeleteError {
            data: String::from("Player authentication"),
            why: String::from("down"),
        })
    );
}

#[test]
fn discord_id_lookup() {
    assert_eq!(
        get_discord_id_result("steve", RowOutcome::Value(String::from("123"))),
        Ok(String::from("123"))
    );
    assert_eq!(
        get_discord_id_result("steve", RowOutcome::Null),
        Err(DatabaseError::MissingDiscordId(String::from("steve")))
    );
    assert_eq!(
        get_discord_id_result("steve", RowOutcome::Empty),
        Err(DatabaseError::MissingDiscordId(String::from("steve")))
    );
    assert_eq!(
        get_discord_id_result("steve", RowOutcome::QueryFailed(String::from("down"))),
        Err(DatabaseError::SelectError {
            data: String::from("Discord id"),
            why: String::from("down"),
        })
    );
    assert_eq!(
        get_discord_id_result("steve", RowOutcome::DecodeFailed(String::from("bad"))),
        Err(DatabaseError::SelectError {
            data: String::from("Discord id"),
            why: String::from("bad"),
        })
    );
}

#[test]
fn minecraft_user_lookup() {
    assert_eq!(
        get_minecraft_user_result("u1", RowOutcome::Value(String::from("steve"))),
        Ok(String::from("steve"))
    );
    assert_eq!(
        get_minecraft_user_result("u1", RowOutcome::Null),
        Err(DatabaseError::MissingMinecraftId(String::from("u1")))
    );
    assert_eq!(
        get_minecraft_user_result("u1", RowOutcome::DecodeFailed(String::from("bad"))),
        Err(DatabaseError::MissingMinecraftId(String::from("u1")))
    );
    assert_eq!(
        get_minecraft_user_result("u1", RowOutcome::QueryFailed(String::from("down"))),
        Err(DatabaseError::SelectError {
            data: String::from("Minecraft user name"),
            why: String::from("down"),
        })
    );
}

#[test]
fn reg_code_lookup() {
    assert_eq!(
        get_reg_code_result("u1", RowOutcome::Value(String::from("c0de"))),
        Ok(String::from("c0de"))
    );
    assert_eq!(
        get_reg_code_result("u1", RowOutcome::Null),
        Err(DatabaseError::MissingRegistration(String::from("u1")))
    );
    assert_eq!(
        get_reg_code_result("u1", RowOutcome::QueryFailed(String::from("down"))),
        Err(DatabaseError::SelectError {
            data: String::from("Discord id"),
            why: String::from("down"),
        })
    );
    assert_eq!(
        get_reg_code_result("u1", RowOutcome::DecodeFailed(String::from("bad"))),
        Err(DatabaseError::SelectError {
            data: String::from("registration code"),
            why: String::from("bad"),
        })
    );
}

#[test]
fn authenticated_lookup() {
    assert_eq!(is_player_authenticated_result("u1", CountOutcome::Count(1)), Ok(true));
    assert_eq!(
        is_player_authenticated_result("u1", CountOutcome::Count(0)),
        Err(DatabaseError::PlayerNotAuthenticated(String::from("u1")))
    );
    assert_eq!(
        is_player_authenticated_result("u1", CountOutcome::Empty),
        Err(DatabaseError::PlayerNotAuthenticated(String::from("u1")))
    );
    assert_eq!(
        is_player_authenticated_result("u1", CountOutcome::QueryFailed(String::from("down"))),
        Err(DatabaseError::SelectError {
            data: String::from("Discord id"),
            why: String::from("down"),
        })
    );
}

#[test]
fn registered_lookup() {
    assert_eq!(is_player_registered_result("u1", CountOutcome::Count(2)), Ok(true));
    assert_eq!(
        is_player_registered_result("u1", CountOutcome::Count(0)),
        Err(DatabaseError::PlayerNotRegistered(String::from("u1")))
    );
    assert_eq!(
        is_player_registered_result("u1", CountOutcome::Empty),
        Err(DatabaseError::PlayerNotRegistered(String::from("u1")))
    );
    assert_eq!(
        is_player_registered_result("u1", CountOutcome::QueryFailed(String::from("down"))),
        Err(DatabaseError::SelectError {
            data: String::from("Discord id"),
            why: String::from("down"),
        })
    );
}

#[test]
fn plain_authentication_status() {
    assert_eq!(authentication_status(CountOutcome::Count(1)), Ok(true));
    assert_eq!(authentication_status(CountOutcome::Count(0)), Ok(false));
    assert_eq!(authentication_status(CountOutcome::Empty), Ok(false));
    assert_eq!(
        authentication_status(CountOutcome::QueryFailed(String::from("down"))),
        Err(DatabaseError::SelectError {
            data: String::from("Discord id"),
            why: String::from("down"),
        })
    );
}

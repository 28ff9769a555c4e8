use mcauth::commands::{
    command_names, error_embed, find_command, PongCommand, RegisterCommand, RegisterLookupStage,
    RegisterStage, UnregisterCommand, UnregisterStage, REG_CODE_LEN,
};
use mcauth::database::DatabaseError;
use mcauth::embed::EmbedColour;

#[test]
fn pong_replies_pong() {
    let pong = PongCommand::new();
    assert_eq!(pong.name(), "ping");
    assert_eq!(pong.description(), "A ping command");
    let e = pong.run();
    assert_eq!(e.title.as_deref(), Some("Ping pong"));
    assert_eq!(e.description.as_deref(), Some("Pong!"));
    assert_eq!(e.colour, Some(EmbedColour::DarkGreen));
}

#[test]
fn command_metadata() {
    assert_eq!(RegisterCommand::new().name(), "register");
    assert_eq!(
        RegisterCommand::new().description(),
        "Register yourself to the Minecraft server"
    );
    assert_eq!(UnregisterCommand::new().name(), "unregister");
    assert_eq!(
        UnregisterCommand::new().description(),
        "Unregister yourself from the Minecraft server"
    );
}

/// An unregistered person gets a fresh code: full length, letters and digits
/// only, and independent draws differ (a constant or echoed value would
/// collide).
#[test]
fn fresh_codes_are_alphanumeric_and_random() {
    let not_registered = || {
        RegisterCommand::on_registration_status(Err(DatabaseError::PlayerNotRegistered(
            String::from("u1"),
        )))
    };
    let code1 = match not_registered() {
        RegisterStage::CreateRegistration { reg_code } => reg_code,
        _ => panic!("an unregistered person gets a fresh registration"),
    };
    let code2 = match not_registered() {
        RegisterStage::CreateRegistration { reg_code } => reg_code,
        _ => panic!("an unregistered person gets a fresh registration"),
    };
    assert_eq!(code1.len(), REG_CODE_LEN);
    assert!(code1.chars().all(|c| c.is_ascii_alphanumeric()));
    assert_ne!(code1, code2, "two fresh codes almost surely differ");
}

#[test]
fn registered_person_is_checked_further() {
    assert!(matches!(
        RegisterCommand::on_registration_status(Ok(true)),
        RegisterStage::CheckMinecraftUser
    ));
    let err = DatabaseError::SelectError {
        data: String::from("Discord id"),
        why: String::from("down"),
    };
    assert!(matches!(
        RegisterCommand::on_registration_status(Err(err)),
        RegisterStage::Fail(_)
    ));
}

#[test]
fn linked_user_means_already_registered() {
    match RegisterCommand::on_minecraft_user(Ok(String::from("steve"))) {
        RegisterLookupStage::Reply(e) => {
            assert_eq!(e.title.as_deref(), Some("Minecraft registration"));
            assert_eq!(
                e.description.as_deref(),
                Some("You are already registered on the Minecraft server. Please unregister before trying to register again.")
            );
            assert_eq!(e.colour, Some(EmbedColour::Red));
        },
        _ => panic!("a linked user means the registration is complete"),
    }
    assert!(matches!(
        RegisterCommand::on_minecraft_user(Err(DatabaseError::MissingMinecraftId(String::from(
            "u1"
        )))),
        RegisterLookupStage::FetchRegCode
    ));
}

#[test]
fn pending_registration_repeats_the_code() {
    let reply = RegisterCommand::on_reg_code(Ok(String::from("c0de"))).unwrap();
    let text = reply.description.unwrap();
    assert!(text.starts_with("You have a pending registration status. "));
    assert!(text.contains("/register c0de\n"));
    assert!(text.contains("minecraft.wahlberger.dev"));
    assert_eq!(reply.colour, Some(EmbedColour::Red));
}

#[test]
fn new_registration_instructs_with_the_code() {
    let reply = RegisterCommand::on_registration_added("abc123", Ok(())).unwrap();
    let text = reply.description.unwrap();
    assert!(text.starts_with("There we go! I have added a registration request for you! "));
    assert!(text.contains("/register abc123\n"));
    assert_eq!(reply.colour, Some(EmbedColour::DarkGreen));
    let err = DatabaseError::InsertError {
        data: String::from("player"),
        why: String::from("down"),
    };
    assert!(RegisterCommand::on_registration_added("abc123", Err(err)).is_err());
}

#[test]
fn unregister_paths() {
    assert!(matches!(
        UnregisterCommand::on_registration_status(Ok(true)),
        UnregisterStage::DeletePlayer
    ));
    match UnregisterCommand::on_registration_status(Err(DatabaseError::PlayerNotRegistered(
        String::from("u1"),
    ))) {
        UnregisterStage::Reply(e) => {
            assert_eq!(e.title.as_deref(), Some("Minecraft unregistration"));
            assert_eq!(
                e.description.as_deref(),
                Some("You are not registered on the Minecraft server.")
            );
            assert_eq!(e.colour, Some(EmbedColour::Red));
        },
        _ => panic!("an unregistered person is told so"),
    }
    let done = UnregisterCommand::on_player_deleted(Ok(())).unwrap();
    assert_eq!(
        done.description.as_deref(),
        Some("You have been successfully unregistered from the Minecraft server")
    );
    assert_eq!(done.colour, Some(EmbedColour::DarkGreen));
    let err = DatabaseError::MissingDiscordId(String::from("u1"));
    assert!(UnregisterCommand::on_player_deleted(Err(err)).is_err());
}

#[test]
fn dispatch_finds_commands_by_name() {
    let names = command_names();
    assert_eq!(names, vec!["ping", "register", "unregister"]);
    assert_eq!(find_command(&names, "register"), Some(1));
    assert_eq!(find_command(&names, "ping"), Some(0));
    assert_eq!(find_command(&names, "unknown"), None);
}

#[test]
fn error_reply_names_the_command() {
    let e = error_embed(String::from("register"));
    assert_eq!(e.title.as_deref(), Some("register"));
    assert_eq!(e.description.as_deref(), Some("An error occured, please try again"));
    assert_eq!(e.colour, Some(EmbedColour::Red));
}

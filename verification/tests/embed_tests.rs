use mcauth::embed::{confirmation_embed, prompt_embed, ConfirmationKind, EmbedColour};

#[test]
fn prompt_names_the_account() {
    let e = prompt_embed("Steve");
    assert_eq!(e.title.as_deref(), Some("Minecraft login"));
    assert_eq!(
        e.description.as_deref(),
        Some("The Minecraft user Steve tried to login on the Minecraft server. Was it you?")
    );
    assert!(e.colour.is_none());
}

#[test]
fn confirmations_colour_by_outcome() {
    let approved = confirmation_embed(ConfirmationKind::Approved);
    assert_eq!(approved.colour, Some(EmbedColour::DarkGreen));
    assert!(approved.description.unwrap().contains("for the next 30 minutes"));

    let already = confirmation_embed(ConfirmationKind::AlreadyAuthenticated);
    assert_eq!(already.colour, Some(EmbedColour::Red));
    assert_eq!(
        already.description.as_deref(),
        Some("You are already logged in on the Minecraft server.")
    );

    let error = confirmation_embed(ConfirmationKind::InternalError);
    assert_eq!(error.colour, Some(EmbedColour::Red));
    assert!(error.description.unwrap().starts_with("An internal error occured."));

    let denied = confirmation_embed(ConfirmationKind::Denied);
    assert_eq!(denied.colour, Some(EmbedColour::Red));
    assert!(denied.description.unwrap().starts_with("The login request has been denied."));
}

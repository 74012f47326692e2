use celestialcord::disc_objects::{
    channel_messages_path, interaction_callback_path, interaction_webhook_path, Embed,
    EmbedAttachment, EmbedAuthor, EmbedField, EmbedFooter, Interaction, InteractionType, Message,
    MessageType, ReplyMessage, Snowflake, User,
};

fn user(id: u64, bot: Option<bool>) -> User {
    User {
        id: Snowflake::Integer(id),
        username: Some(String::from("someone")),
        discriminator: None,
        avatar: None,
        bot,
        system: None,
        mfa_enabled: None,
        banner: None,
        accent_colour: None,
        locale: None,
        verified: None,
        email: None,
        flags: None,
        premium_type: None,
        public_flags: None,
        member: None,
    }
}

fn message(id: u64, author: User) -> Message {
    Message {
        id: Snowflake::Integer(id),
        channel_id: Snowflake::Integer(77),
        guild_id: None,
        author,
        member: None,
        content: String::from("!response"),
        timestamp: String::from("2021-01-01T00:00:00Z"),
        edited_timestamp: None,
        tts: false,
        mention_everyone: false,
        mentions: vec![],
        mention_roles: vec![],
        mention_channels: None,
        attachments: vec![],
        embeds: vec![],
        reactions: None,
        nonce: None,
        pinned: false,
        webhook_id: None,
        message_type: MessageType::Default,
        activity: None,
        application: None,
        application_id: None,
        message_reference: None,
        flags: None,
        reference_message: None,
        interaction: None,
        thread: None,
        components: None,
        sticker_items: None,
    }
}

fn bare_interaction() -> Interaction {
    Interaction {
        id: Snowflake::Integer(900),
        application_id: Snowflake::Integer(123),
        interaction_type: InteractionType::ApplicationCommand,
        data: None,
        guild_id: None,
        channel_id: None,
        member: None,
        user: None,
        token: String::from("tok"),
        version: 1,
        message: None,
    }
}

#[test]
fn snowflake_text_forms() {
    assert_eq!(Snowflake::Integer(42).to_display_string(), "42");
    assert_eq!(Snowflake::Integer(0).to_display_string(), "0");
    assert_eq!(Snowflake::Integer(u64::MAX).to_display_string(), "18446744073709551615");
    assert_eq!(Snowflake::String(String::from("abc")).to_display_string(), "abc");
}

#[test]
fn reply_paths() {
    assert_eq!(channel_messages_path(&Snowflake::Integer(77)), "/channels/77/messages");
    assert_eq!(channel_messages_path(&Snowflake::String(String::from("88"))), "/channels/88/messages");
    let ix = bare_interaction();
    assert_eq!(interaction_callback_path(&ix), "/interactions/900/tok/callback");
    assert_eq!(interaction_webhook_path(&Snowflake::Integer(123), &ix), "/webhooks/123/tok");
}

#[test]
fn reply_message_builders() {
    let reply = ReplyMessage::new(true);
    assert!(reply.tts);
    assert!(reply.content.is_none() && reply.embeds.is_none() && reply.message_reference.is_none());
    assert!(!reply.ephemeral);
    assert_eq!(reply.flags(), None);
    let reply = reply.content_str("hello").ephemeral();
    assert_eq!(reply.content.as_deref(), Some("hello"));
    assert!(reply.ephemeral);
    assert_eq!(reply.flags(), Some(64));
    let reply = reply.ephemeral().content_string(String::from("bye"));
    assert!(!reply.ephemeral);
    assert_eq!(reply.content.as_deref(), Some("bye"));
    let reply = reply
        .add_embed(Embed::new("Hello", "first", 0xFF0000))
        .add_embed(Embed::new("Again", "second", 0x0000FF));
    let embeds = reply.embeds.as_ref().unwrap();
    assert_eq!(embeds.len(), 2);
    assert_eq!(embeds[0].title.as_deref(), Some("Hello"));
    assert_eq!(embeds[1].colour, Some(0x0000FF));
    let received = message(555, user(1, None));
    let reply = reply.reply_message(received);
    let reference = reply.message_reference.unwrap();
    assert_eq!(reference.message_id, Some(Snowflake::Integer(555)));
    assert_eq!(reference.channel_id, None);
    assert_eq!(reference.guild_id, None);
}

#[test]
fn embed_builders() {
    let embed = Embed::new("Hello", "Snootiermoon!", 0xFF0000);
    assert_eq!(embed.title.as_deref(), Some("Hello"));
    assert_eq!(embed.description.as_deref(), Some("Snootiermoon!"));
    assert_eq!(embed.embed_type.as_deref(), Some("rich"));
    assert_eq!(embed.colour, Some(0xFF0000));
    assert!(embed.url.is_none() && embed.fields.is_none() && embed.image.is_none());
    let embed = embed
        .image("https://example.com/a.gif")
        .thumbnail("https://example.com/t.png")
        .video("https://example.com/v.mp4")
        .url("https://example.com")
        .timestamp("2021-01-01T00:00:00Z")
        .change_colour(0x00FF00)
        .footer("foot", Some("https://example.com/i.png"))
        .author("me", None, Some("https://example.com/me"))
        .add_field("a", "1", true)
        .add_field("b", "2", false);
    assert_eq!(embed.image.as_ref().unwrap().url, "https://example.com/a.gif");
    assert!(embed.image.as_ref().unwrap().proxy_url.is_none());
    assert_eq!(embed.thumbnail.as_ref().unwrap().url, "https://example.com/t.png");
    assert_eq!(embed.video.as_ref().unwrap().url, "https://example.com/v.mp4");
    assert_eq!(embed.url.as_deref(), Some("https://example.com"));
    assert_eq!(embed.timestamp.as_deref(), Some("2021-01-01T00:00:00Z"));
    assert_eq!(embed.colour, Some(0x00FF00));
    let footer = embed.footer.as_ref().unwrap();
    assert_eq!(footer.text, "foot");
    assert_eq!(footer.icon_url.as_deref(), Some("https://example.com/i.png"));
    let author = embed.author.as_ref().unwrap();
    assert_eq!(author.name, "me");
    assert_eq!(author.icon_url, None);
    assert_eq!(author.url.as_deref(), Some("https://example.com/me"));
    let fields = embed.fields.as_ref().unwrap();
    assert_eq!(fields.len(), 2);
    assert_eq!(fields[0].name, "a");
    assert_eq!(fields[0].inline, Some(true));
    assert_eq!(fields[1].value, "2");
    assert_eq!(fields[1].inline, Some(false));
}

#[test]
fn embed_part_constructors() {
    let field = EmbedField::new(String::from("n"), String::from("v"), true);
    assert_eq!(field.inline, Some(true));
    let author = EmbedAuthor::new(String::from("n"), Some(String::from("u")), None);
    assert_eq!(author.url.as_deref(), Some("u"));
    assert!(author.proxy_icon_url.is_none());
    let footer = EmbedFooter::new(String::from("t"), None);
    assert_eq!(footer.text, "t");
    assert!(footer.proxy_icon_url.is_none());
    let attachment = EmbedAttachment::new(String::from("x"));
    assert_eq!(attachment.url, "x");
    assert!(attachment.height.is_none() && attachment.width.is_none());
}

#[test]
fn message_from_bot_is_detected() {
    assert!(message(1, user(2, Some(true))).is_bot());
    assert!(!message(1, user(2, Some(false))).is_bot());
    assert!(!message(1, user(2, None)).is_bot());
}

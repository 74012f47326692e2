use celestialcord::bot::{Bot, EventMap};
use celestialcord::disc_objects::{
    AppCommandOptionType, AppCommandValue, ApplicationCommandType, ChannelType, GatewayEventBinding,
    Hello, Interaction, InteractionData, InteractionType, Snowflake,
};
use celestialcord::discord::{Client, DiscordError, GatewayEvent, Payload};
use celestialcord::interactions::{
    command_scope_path, sync_description, AppCommand, AppCommandMap, AppCommandOption,
    CommandScope, InteractionCommand,
};

const ALL_TAGS: [GatewayEventBinding; 55] = [
    GatewayEventBinding::HeartbeatOk,
    GatewayEventBinding::Heartbeat,
    GatewayEventBinding::Hello,
    GatewayEventBinding::Ready,
    GatewayEventBinding::Resumed,
    GatewayEventBinding::Reconnect,
    GatewayEventBinding::InvalidSession,
    GatewayEventBinding::ChannelCreate,
    GatewayEventBinding::ChannelUpdate,
    GatewayEventBinding::ChannelDelete,
    GatewayEventBinding::ChannelPinsUpdate,
    GatewayEventBinding::ThreadCreate,
    GatewayEventBinding::ThreadUpdate,
    GatewayEventBinding::ThreadDelete,
    GatewayEventBinding::ThreadListSync,
    GatewayEventBinding::ThreadMemberUpdate,
    GatewayEventBinding::ThreadMembersUpdate,
    GatewayEventBinding::GuildCreate,
    GatewayEventBinding::GuildUpdate,
    GatewayEventBinding::GuildDelete,
    GatewayEventBinding::GuildBanAdd,
    GatewayEventBinding::GuildBanRemove,
    GatewayEventBinding::GuildEmojisUpdate,
    GatewayEventBinding::GuildStickersUpdate,
    GatewayEventBinding::GuildIntegrationsUpdate,
    GatewayEventBinding::GuildMemberAdd,
    GatewayEventBinding::GuildMemberRemove,
    GatewayEventBinding::GuildMemberUpdate,
    GatewayEventBinding::GuildMembersChunk,
    GatewayEventBinding::GuildRoleCreate,
    GatewayEventBinding::GuildRoleUpdate,
    GatewayEventBinding::GuildRoleDelete,
    GatewayEventBinding::IntegrationCreate,
    GatewayEventBinding::IntegrationUpdate,
    GatewayEventBinding::IntegrationDelete,
    GatewayEventBinding::InteractionCreate,
    GatewayEventBinding::InviteCreate,
    GatewayEventBinding::InviteDelete,
    GatewayEventBinding::MessageCreate,
    GatewayEventBinding::MessageUpdate,
    GatewayEventBinding::MessageDelete,
    GatewayEventBinding::MessageDeleteBulk,
    GatewayEventBinding::MessageReactionAdd,
    GatewayEventBinding::MessageReactionRemove,
    GatewayEventBinding::MessageReactionRemoveAll,
    GatewayEventBinding::MessageReactionRemoveEmoji,
    GatewayEventBinding::PresenceUpdate,
    GatewayEventBinding::StageInstanceCreate,
    GatewayEventBinding::StageInstanceDelete,
    GatewayEventBinding::StageInstanceUpdate,
    GatewayEventBinding::TypingStart,
    GatewayEventBinding::UserUpdate,
    GatewayEventBinding::VoiceStateUpdate,
    GatewayEventBinding::VoiceServerUpdate,
    GatewayEventBinding::WebhooksUpdate,
];

fn event_payload(tag: GatewayEventBinding, sequence: u64) -> Payload {
    Payload {
        opcode: 0,
        data: Some(GatewayEvent::Resumed),
        sequence: Some(sequence),
        gateway_type: Some(tag),
    }
}

fn interaction(kind: InteractionType, command_kind: ApplicationCommandType, name: &str) -> Interaction {
    Interaction {
        id: Snowflake::Integer(900),
        application_id: Snowflake::Integer(123),
        interaction_type: kind,
        data: Some(InteractionData {
            id: Snowflake::Integer(901),
            name: String::from(name),
            interaction_data_type: command_kind,
            resolved: None,
            options: None,
            custom_id: None,
            component_type: None,
            values: None,
            target_id: None,
        }),
        guild_id: None,
        channel_id: Some(Snowflake::Integer(5)),
        member: None,
        user: None,
        token: String::from("interaction-token"),
        version: 1,
        message: None,
    }
}

fn interaction_payload(i: Interaction, sequence: u64) -> Payload {
    Payload {
        opcode: 0,
        data: Some(GatewayEvent::InteractionCreate(i)),
        sequence: Some(sequence),
        gateway_type: Some(GatewayEventBinding::InteractionCreate),
    }
}

#[test]
fn second_event_registration_wins() {
    let mut bot: Bot<u32, u32> = Bot::new(9, String::from("t"), vec![]);
    bot.add_event(GatewayEventBinding::MessageCreate, 1);
    bot.add_event(GatewayEventBinding::MessageCreate, 2);
    let payload = event_payload(GatewayEventBinding::MessageCreate, 1);
    assert_eq!(bot.gateway_event_map.handler_for(&payload), Some(&2));
    let (event, interaction) = Bot::read(&mut bot.client, &bot.gateway_event_map, Some(&bot.interaction_map), &payload);
    assert_eq!(event, Some(&2));
    assert_eq!(interaction, None);
}

#[test]
fn every_tag_reaches_its_own_handler() {
    let mut events: EventMap<usize> = EventMap::new();
    for (i, tag) in ALL_TAGS.iter().enumerate() {
        events.insert(*tag, i);
    }
    let mut client = Client::new(9, String::from("t"), vec![]);
    let commands: AppCommandMap<usize> = AppCommandMap::new();
    let mut invoked = vec![0u32; ALL_TAGS.len()];
    for (i, tag) in ALL_TAGS.iter().enumerate() {
        let payload = event_payload(*tag, i as u64 + 1);
        let (event, _) = Bot::read(&mut client, &events, Some(&commands), &payload);
        let handler = *event.expect("registered tag has a handler");
        assert_eq!(handler, i);
        invoked[handler] += 1;
    }
    assert!(invoked.iter().all(|n| *n == 1));
    assert_eq!(client.sequence, Some(ALL_TAGS.len() as u64));
}

#[test]
fn unregistered_or_bodiless_envelopes_are_dropped() {
    let mut events: EventMap<u32> = EventMap::new();
    events.insert(GatewayEventBinding::Hello, 7);
    let unregistered = event_payload(GatewayEventBinding::TypingStart, 3);
    assert_eq!(events.handler_for(&unregistered), None);
    let bodiless = Payload {
        opcode: 11,
        data: None,
        sequence: None,
        gateway_type: Some(GatewayEventBinding::Hello),
    };
    assert_eq!(events.handler_for(&bodiless), None);
    let hello = Payload {
        opcode: 10,
        data: Some(GatewayEvent::Hello(Hello { heartbeat_interval: 5 })),
        sequence: None,
        gateway_type: Some(GatewayEventBinding::Hello),
    };
    assert_eq!(events.handler_for(&hello), Some(&7));
}

#[test]
fn sequence_recorded_even_without_handler() {
    let mut client = Client::new(9, String::from("t"), vec![]);
    let events: EventMap<u32> = EventMap::new();
    let payload = Payload { opcode: 0, data: None, sequence: Some(42), gateway_type: None };
    let (event, interaction) = Bot::<u32, u32>::read(&mut client, &events, None, &payload);
    assert_eq!(event, None);
    assert_eq!(interaction, None);
    assert_eq!(client.sequence, Some(42));
}

#[test]
fn ping_interaction_routes_to_its_handler() {
    let mut bot: Bot<u32, u32> = Bot::new(9, String::from("t"), vec![]);
    bot.add_app_command(AppCommand::new("ping", "Replies with pong", ApplicationCommandType::ChatInput), 7, vec![]);
    bot.add_app_command(AppCommand::new("other", "Another", ApplicationCommandType::ChatInput), 8, vec![]);
    let ix = interaction(InteractionType::ApplicationCommand, ApplicationCommandType::ChatInput, "ping");
    assert_eq!(bot.interaction_map.handle_app_command(&ix), Ok(Some(&7)));
    let payload = interaction_payload(ix, 9);
    let (event, routed) = Bot::read(&mut bot.client, &bot.gateway_event_map, Some(&bot.interaction_map), &payload);
    assert_eq!(event, None);
    assert_eq!(routed, Some(Ok(&7)));
    match &payload.data {
        Some(GatewayEvent::InteractionCreate(i)) => {
            assert_eq!(i.token, "interaction-token");
            assert_eq!(i.data.as_ref().unwrap().name, "ping");
        },
        other => panic!("payload changed: {:?}", other),
    }
}

#[test]
fn unknown_or_unsupported_interactions_are_errors() {
    let mut map: AppCommandMap<u32> = AppCommandMap::new();
    map.insert(InteractionCommand::new(AppCommand::new("ping", "d", ApplicationCommandType::ChatInput), 1, None));
    let missing = interaction(InteractionType::ApplicationCommand, ApplicationCommandType::ChatInput, "pong");
    assert_eq!(map.handle_app_command(&missing), Err(DiscordError::UnregisteredCommand));
    let wrong_kind = interaction(InteractionType::ApplicationCommand, ApplicationCommandType::User, "ping");
    assert_eq!(map.handle_app_command(&wrong_kind), Err(DiscordError::UnregisteredCommand));
    let component = interaction(InteractionType::MessageComponent, ApplicationCommandType::ChatInput, "ping");
    assert_eq!(map.handle_app_command(&component), Err(DiscordError::UnsupportedInteraction));
    let mut no_data = interaction(InteractionType::Ping, ApplicationCommandType::ChatInput, "ping");
    no_data.data = None;
    assert_eq!(map.handle_app_command(&no_data), Ok(None));
    assert_eq!(map.handle_interaction(&Some(GatewayEvent::InteractionCreate(no_data))), None);
    assert_eq!(map.handle_interaction(&Some(GatewayEvent::Resumed)), Some(Err(DiscordError::UnexpectedPayload)));
    assert_eq!(map.handle_interaction(&None), Some(Err(DiscordError::UnexpectedPayload)));
}

#[test]
fn same_name_in_two_kinds_are_distinct_commands() {
    let mut map: AppCommandMap<u32> = AppCommandMap::new();
    map.insert(InteractionCommand::new(AppCommand::new("info", "d", ApplicationCommandType::ChatInput), 1, None));
    map.insert(InteractionCommand::new(AppCommand::new("info", "", ApplicationCommandType::User), 2, None));
    map.insert(InteractionCommand::new(AppCommand::new("info", "d2", ApplicationCommandType::ChatInput), 3, None));
    assert_eq!(map.len(), 2);
    let chat = interaction(InteractionType::ApplicationCommand, ApplicationCommandType::ChatInput, "info");
    let user = interaction(InteractionType::ApplicationCommand, ApplicationCommandType::User, "info");
    assert_eq!(map.handle_app_command(&chat), Ok(Some(&3)));
    assert_eq!(map.handle_app_command(&user), Ok(Some(&2)));
}

#[test]
fn reconcile_keeps_description_only_for_chat_input() {
    let mut bot: Bot<u32, u32> = Bot::new(9, String::from("t"), vec![]);
    bot.add_app_command(AppCommand::new("ping", "Replies with pong", ApplicationCommandType::ChatInput), 1, vec![]);
    bot.add_app_command(AppCommand::new("whois", "Replies with pong", ApplicationCommandType::User), 2, vec![]);
    bot.sync_commands();
    assert!(bot.sync_commands);
    let buckets = bot.register_commands();
    assert_eq!(buckets.len(), 1);
    assert_eq!(buckets[0].scope, CommandScope::Global);
    assert_eq!(buckets[0].commands, vec![0, 1]);
    let chat = &bot.interaction_map.handle_app_command(&interaction(InteractionType::ApplicationCommand, ApplicationCommandType::ChatInput, "ping"));
    assert_eq!(chat, &Ok(Some(&1)));
    let ping = AppCommand::new("ping", "Replies with pong", ApplicationCommandType::ChatInput);
    assert_eq!(sync_description(&ping).map(|s| s.as_str()), Some("Replies with pong"));
    let whois = AppCommand::new("whois", "Replies with pong", ApplicationCommandType::User);
    assert_eq!(sync_description(&whois), None);
    let context = AppCommand::new("quote", "Replies", ApplicationCommandType::Message);
    assert_eq!(sync_description(&context), None);
}

#[test]
fn reconcile_groups_by_guild() {
    let mut bot: Bot<u32, u32> = Bot::new(9, String::from("t"), vec![]);
    bot.add_app_command(AppCommand::new("a", "a", ApplicationCommandType::ChatInput), 1, vec![10, 20]);
    bot.add_app_command(AppCommand::new("b", "b", ApplicationCommandType::ChatInput), 2, vec![]);
    bot.add_app_command(AppCommand::new("c", "c", ApplicationCommandType::ChatInput), 3, vec![20]);
    let buckets = bot.register_commands();
    assert_eq!(buckets.len(), 3);
    let find = |scope: CommandScope| buckets.iter().find(|b| b.scope == scope).map(|b| b.commands.clone());
    assert_eq!(find(CommandScope::Guild(10)), Some(vec![0]));
    assert_eq!(find(CommandScope::Guild(20)), Some(vec![0, 2]));
    assert_eq!(find(CommandScope::Global), Some(vec![1]));
    assert_eq!(find(CommandScope::Guild(30)), None);
}

#[test]
fn reconcile_of_empty_registry_has_no_buckets() {
    let bot: Bot<u32, u32> = Bot::new(9, String::from("t"), vec![]);
    assert!(bot.register_commands().is_empty());
}

#[test]
fn replacing_a_command_keeps_one_entry() {
    let mut bot: Bot<u32, u32> = Bot::new(9, String::from("t"), vec![]);
    bot.add_app_command(AppCommand::new("a", "first", ApplicationCommandType::ChatInput), 1, vec![10]);
    bot.add_app_command(AppCommand::new("a", "second", ApplicationCommandType::ChatInput), 2, vec![]);
    assert_eq!(bot.interaction_map.len(), 1);
    let buckets = bot.register_commands();
    assert_eq!(buckets.len(), 1);
    assert_eq!(buckets[0].scope, CommandScope::Global);
    let ix = interaction(InteractionType::ApplicationCommand, ApplicationCommandType::ChatInput, "a");
    assert_eq!(bot.interaction_map.handle_app_command(&ix), Ok(Some(&2)));
}

#[test]
fn command_paths() {
    let app = Snowflake::Integer(123);
    assert_eq!(command_scope_path(&app, CommandScope::Global), "/applications/123/commands");
    assert_eq!(command_scope_path(&app, CommandScope::Guild(456)), "/applications/123/guilds/456/commands");
    let app = Snowflake::String(String::from("789"));
    assert_eq!(command_scope_path(&app, CommandScope::Global), "/applications/789/commands");
}

#[test]
fn string_option_takes_choices() {
    let option = AppCommandOption::new("colour", "Pick one", AppCommandOptionType::String)
        .add_choice("red", AppCommandValue::String(String::from("r")))
        .add_choice("green", AppCommandValue::String(String::from("g")));
    let choices = option.choices.as_ref().unwrap();
    assert_eq!(choices.len(), 2);
    assert_eq!(choices[0].name, "red");
    assert_eq!(choices[1].name, "green");
    assert!(matches!(&choices[1].value, AppCommandValue::String(s) if s == "g"));
    let number = AppCommandOption::new("n", "d", AppCommandOptionType::Number)
        .add_choice("half", AppCommandValue::Double(0.5f64.to_bits()));
    assert!(matches!(number.choices.unwrap()[0].value, AppCommandValue::Double(b) if f64::from_bits(b) == 0.5));
    let command = AppCommand::new("pick", "Pick", ApplicationCommandType::ChatInput).add_option(option);
    assert_eq!(command.options.len(), 1);
    assert_eq!(command.options[0].choices.as_ref().unwrap().len(), 2);
}

#[test]
fn option_builders() {
    let option = AppCommandOption::new("o", "d", AppCommandOptionType::Integer);
    assert_eq!(option.required, None);
    let option = option.required();
    assert_eq!(option.required, Some(true));
    let option = option.required();
    assert_eq!(option.required, Some(false));
    let channel = AppCommandOption::new("c", "d", AppCommandOptionType::Channel)
        .add_channel_type(ChannelType::GuildText)
        .add_channel_types(vec![ChannelType::GuildVoice, ChannelType::GuildNews]);
    assert_eq!(channel.channel_types, Some(vec![ChannelType::GuildText, ChannelType::GuildVoice, ChannelType::GuildNews]));
    let group = AppCommandOption::new("g", "d", AppCommandOptionType::SubCommandGroup)
        .add_option(AppCommandOption::new("s", "d", AppCommandOptionType::SubCommand));
    assert_eq!(group.options.as_ref().unwrap()[0].name, "s");
}

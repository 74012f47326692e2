use celestialcord::disc_objects::{
    GatewayEventBinding, Hello, ReadyEvent, ReadyEventApplication, Snowflake, User,
};
use celestialcord::discord::{
    scaled_delay, Client, ConnectionAction, ConnectionEvent, ConnectionState, DiscordError,
    Gateway, GatewayEvent, Intent, OutboundData, Payload,
};

fn user(id: u64) -> User {
    User {
        id: Snowflake::Integer(id),
        username: None,
        discriminator: None,
        avatar: None,
        bot: None,
        system: None,
        mfa_enabled: None,
        banner: None,
        accent_colour: None,
        locale: None,
        verified: None,
        email: None,
        flags: None,
        premium_type: None,
        public_flags: None,
        member: None,
    }
}

fn hello_payload(interval: u64) -> Payload {
    Payload {
        opcode: 10,
        data: Some(GatewayEvent::Hello(Hello { heartbeat_interval: interval })),
        sequence: None,
        gateway_type: Gateway::opcode_conversion(10, None),
    }
}

fn ready_payload(application_id: u64, sequence: u64) -> Payload {
    Payload {
        opcode: 0,
        data: Some(GatewayEvent::Ready(ReadyEvent {
            v: 9,
            user: user(1),
            guilds: vec![],
            session_id: String::from("session"),
            shard: None,
            application: ReadyEventApplication { id: Snowflake::Integer(application_id), flags: None },
        })),
        sequence: Some(sequence),
        gateway_type: Some(GatewayEventBinding::Ready),
    }
}

fn client_with_gateway(url: &str) -> Client {
    let mut client = Client::new(9, String::from("token-value"), vec![Intent::all()]);
    client.gateway.url = String::from(url);
    client
}

#[test]
fn handshake_records_interval_and_application_id() {
    let mut client = client_with_gateway("wss://gateway.discord.gg");
    let (state, action) = client.advance(ConnectionState::Disconnected, ConnectionEvent::Connect, "linux");
    assert_eq!(state, ConnectionState::Connecting);
    assert!(matches!(action, ConnectionAction::OpenTransport(ref u) if u == "wss://gateway.discord.gg"));

    let (state, action) = client.advance(state, ConnectionEvent::Connected, "linux");
    assert_eq!(state, ConnectionState::AwaitingHello);
    assert!(matches!(action, ConnectionAction::Nothing));

    let (state, action) = client.advance(state, ConnectionEvent::Received(hello_payload(41250)), "linux");
    assert_eq!(state, ConnectionState::Identifying);
    match action {
        ConnectionAction::SendIdentify(p) => {
            assert_eq!(p.opcode, 2);
            match p.data {
                Some(OutboundData::Identify(d)) => {
                    assert_eq!(d.token, "token-value");
                    assert_eq!(d.intents, 0x7fff);
                    assert_eq!(d.os, "linux");
                    assert_eq!(d.browser, "Celestial");
                    assert_eq!(d.device, "Celestial");
                },
                other => panic!("unexpected identify body {:?}", other),
            }
        },
        other => panic!("expected an identify envelope, got {:?}", other),
    }
    assert_eq!(client.heartbeat_interval, 41250);

    let (state, action) = client.advance(state, ConnectionEvent::IdentifySent, "linux");
    assert_eq!(state, ConnectionState::AwaitingReady);
    assert!(matches!(action, ConnectionAction::Nothing));

    let (state, action) = client.advance(state, ConnectionEvent::Received(ready_payload(123, 1)), "linux");
    assert_eq!(state, ConnectionState::Active);
    assert!(matches!(action, ConnectionAction::StartLoops));
    assert_eq!(client.application_id, Some(Snowflake::Integer(123)));
    assert_eq!(client.heartbeat_interval, 41250);
}

#[test]
fn handshake_waits_for_ready_past_other_events() {
    let mut client = client_with_gateway("wss://gateway.discord.gg");
    let other = Payload {
        opcode: 0,
        data: Some(GatewayEvent::Resumed),
        sequence: Some(1),
        gateway_type: Some(GatewayEventBinding::Resumed),
    };
    let (state, action) = client.advance(ConnectionState::AwaitingReady, ConnectionEvent::Received(other), "linux");
    assert_eq!(state, ConnectionState::AwaitingReady);
    assert!(matches!(action, ConnectionAction::Nothing));
    assert_eq!(client.application_id, None);
}

#[test]
fn handshake_rejects_missing_hello() {
    let mut client = client_with_gateway("wss://gateway.discord.gg");
    let (state, action) = client.advance(ConnectionState::AwaitingHello, ConnectionEvent::Received(ready_payload(5, 1)), "linux");
    assert_eq!(state, ConnectionState::Closed);
    assert!(matches!(action, ConnectionAction::Fail(DiscordError::HelloExpected)));
    assert_eq!(client.heartbeat_interval, 0);
}

#[test]
fn handshake_closes_on_transport_loss() {
    let mut client = client_with_gateway("wss://gateway.discord.gg");
    let (state, _) = client.advance(ConnectionState::Active, ConnectionEvent::TransportClosed, "linux");
    assert_eq!(state, ConnectionState::Closed);
}

#[test]
fn connect_without_endpoint_fails() {
    let mut client = Client::new(9, String::from("t"), vec![]);
    let (state, action) = client.advance(ConnectionState::Disconnected, ConnectionEvent::Connect, "linux");
    assert_eq!(state, ConnectionState::Closed);
    assert!(matches!(action, ConnectionAction::Fail(DiscordError::EndpointNotNegotiated)));
    assert_eq!(client.gateway_endpoint().unwrap_err(), DiscordError::EndpointNotNegotiated);
}

#[test]
fn connect_with_malformed_endpoint_fails() {
    let client = client_with_gateway("not a url");
    assert_eq!(client.gateway_endpoint().unwrap_err(), DiscordError::InvalidEndpoint);
    let client = client_with_gateway("wss://gateway.discord.gg/?v=9");
    assert_eq!(client.gateway_endpoint().unwrap(), "wss://gateway.discord.gg/?v=9");
}

#[test]
fn check_hello_reads_interval() {
    let mut client = Client::new(9, String::from("t"), vec![]);
    assert_eq!(client.check_hello(&hello_payload(45000)), Ok(45000));
    assert_eq!(client.heartbeat_interval, 45000);
    assert_eq!(client.check_hello(&ready_payload(1, 2)), Err(DiscordError::HelloExpected));
    assert_eq!(client.heartbeat_interval, 45000);
}

#[test]
fn control_opcodes_get_their_own_tags() {
    assert_eq!(Gateway::opcode_conversion(11, None), Some(GatewayEventBinding::HeartbeatOk));
    assert_eq!(Gateway::opcode_conversion(10, None), Some(GatewayEventBinding::Hello));
    assert_eq!(Gateway::opcode_conversion(9, None), Some(GatewayEventBinding::InvalidSession));
    assert_eq!(Gateway::opcode_conversion(7, None), Some(GatewayEventBinding::Reconnect));
    assert_eq!(Gateway::opcode_conversion(1, None), Some(GatewayEventBinding::Heartbeat));
    assert_eq!(Gateway::opcode_conversion(10, Some(GatewayEventBinding::Ready)), Some(GatewayEventBinding::Hello));
    assert_eq!(Gateway::opcode_conversion(0, Some(GatewayEventBinding::MessageCreate)), Some(GatewayEventBinding::MessageCreate));
    assert_eq!(Gateway::opcode_conversion(0, None), None);
}

#[test]
fn recorded_sequence_is_greatest_seen() {
    let mut client = Client::new(9, String::from("t"), vec![]);
    assert_eq!(client.sequence, None);
    client.record_sequence(None);
    assert_eq!(client.sequence, None);
    for s in [Some(1), None, Some(5), Some(3), None] {
        client.record_sequence(s);
    }
    assert_eq!(client.sequence, Some(5));
    client.record_sequence(Some(6));
    assert_eq!(client.sequence, Some(6));
    match client.heartbeat_payload().data {
        Some(OutboundData::Sequence(s)) => assert_eq!(s, Some(6)),
        other => panic!("unexpected heartbeat body {:?}", other),
    }
}

#[test]
fn heartbeat_without_sequence_sends_marker() {
    let client = Client::new(9, String::from("t"), vec![]);
    let p = client.heartbeat_payload();
    assert_eq!(p.opcode, 1);
    assert!(matches!(p.data, Some(OutboundData::Sequence(None))));
    assert_eq!(p.sequence, None);
    assert_eq!(p.gateway_type, None);
}

#[test]
fn first_delay_stays_below_interval() {
    let mut client = Client::new(9, String::from("t"), vec![]);
    assert_eq!(client.first_heartbeat_delay(), 0);
    client.heartbeat_interval = 41250;
    for _ in 0..100 {
        assert!(client.first_heartbeat_delay() < 41250);
    }
}

#[test]
fn scaled_delay_values() {
    assert_eq!(scaled_delay(41250, 1u64 << 63), 20625);
    assert_eq!(scaled_delay(1000, u64::MAX), 999);
    assert_eq!(scaled_delay(1000, 0), 0);
    assert_eq!(scaled_delay(0, u64::MAX), 0);
    assert_eq!(scaled_delay(u64::MAX, u64::MAX), u64::MAX - 1);
}

#[test]
fn client_new_normalises_version() {
    let client = Client::new(10, String::from("tok"), vec![]);
    assert_eq!(client.api_ver, 9);
    assert_eq!(client.api_url, "https://discord.com/api/v9");
    let client = Client::new(7, String::from("tok"), vec![]);
    assert_eq!(client.api_ver, 7);
    assert_eq!(client.api_url, "https://discord.com/api/v7");
    assert_eq!(client.token, "tok");
    assert_eq!(client.heartbeat_interval, 0);
    assert_eq!(client.gateway.url, "");
    assert_eq!(client.request_url("/gateway/bot"), "https://discord.com/api/v7/gateway/bot");
}

#[test]
fn intents_are_combined() {
    let client = Client::new(
        9,
        String::from("tok"),
        vec![
            Intent::from_bits_truncate(Intent::GUILDS),
            Intent::from_bits_truncate(Intent::GUILD_MESSAGES | Intent::DIRECT_MESSAGES),
        ],
    );
    assert_eq!(client.intents.bits(), 1 | 512 | 4096);
    assert_eq!(Intent::all().bits(), 0x7fff);
    assert_eq!(Intent::empty().union(Intent::from_bits_truncate(0xffff_ffff)).bits(), 0x7fff);
    assert_eq!(Intent::collect(&vec![]).bits(), 0);
}

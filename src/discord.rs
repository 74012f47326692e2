//! The gateway connection: the identity it runs under, the envelopes it
//! exchanges, and the handshake that brings it from closed to active.

use std::collections::HashMap;
use vstd::prelude::*;

use crate::decimal::{decimal_digits, u64_to_decimal};
use crate::disc_objects::{
    Channel, ChannelPinUpdateEvent, GatewayEventBinding, Hello, Interaction, Message,
    MessageReactionAddEvent, ReadyEvent, Snowflake,
};

verus! {

pub const DISCORD_API: &'static str = "https://discord.com/api";

pub const LIBRARY_NAME: &'static str = "Celestial";

/// The protocol version used when the one asked for is not supported.
pub const DEFAULT_API_VERSION: u32 = 9;

pub const HEARTBEAT_OPCODE: u64 = 1;

pub const IDENTIFY_OPCODE: u64 = 2;

/// Every intent bit that the gateway defines.
pub const ALL_INTENT_BITS: u32 = 0x7fff;

/// Protocol versions the REST interface and the gateway accept.
pub open spec fn is_valid_api(version: u32) -> bool {
    version == 7 || version == 8 || version == 9
}

/// A set of gateway intents: the groups of events the connection subscribes
/// to, one bit each.
#[derive(Clone, Copy, Debug, PartialEq, Eq, Hash, Structural)]
pub struct Intent {
    pub bits: u32,
}

impl Intent {
    pub const GUILDS: u32 = 1;
    pub const GUILD_MEMBERS: u32 = 2;
    pub const GUILD_BANS: u32 = 4;
    pub const GUILD_EMOJIS_AND_STICKERS: u32 = 8;
    pub const GUILD_INTEGRATIONS: u32 = 16;
    pub const GUILD_WEBHOOKS: u32 = 32;
    pub const GUILD_INVITES: u32 = 64;
    pub const GUILD_VOICE_STATES: u32 = 128;
    pub const GUILD_PRESENCES: u32 = 256;
    pub const GUILD_MESSAGES: u32 = 512;
    pub const GUILD_MESSAGE_REACTIONS: u32 = 1024;
    pub const GUILD_MESSAGE_TYPING: u32 = 2048;
    pub const DIRECT_MESSAGES: u32 = 4096;
    pub const DIRECT_MESSAGE_REACTIONS: u32 = 8192;
    pub const DIRECT_MESSAGE_TYPING: u32 = 16384;

    pub fn empty() -> (r: Intent)
        ensures
            r.bits == 0,
    {
        Intent { bits: 0 }
    }

    pub fn all() -> (r: Intent)
        ensures
            r.bits == ALL_INTENT_BITS,
    {
        Intent { bits: ALL_INTENT_BITS }
    }

    /// The intents named by `bits`; bits that name no intent are dropped.
    pub fn from_bits_truncate(bits: u32) -> (r: Intent)
        ensures
            r.bits == bits & ALL_INTENT_BITS,
    {
        Intent { bits: bits & ALL_INTENT_BITS }
    }

    pub fn bits(&self) -> (r: u32)
        ensures
            r == self.bits,
    {
        self.bits
    }

    pub fn union(self, other: Intent) -> (r: Intent)
        ensures
            r.bits == self.bits | other.bits,
    {
        Intent { bits: self.bits | other.bits }
    }

    /// The union of all the given intents.
    pub fn collect(intents: &Vec<Intent>) -> (r: Intent)
        ensures
            r.bits == union_all(intents@),
    {
        let mut bits: u32 = 0;
        let mut i: usize = 0;
        while i < intents.len()
            invariant
                i <= intents.len(),
                bits == union_all(intents@.take(i as int)),
            decreases intents.len() - i,
        {
            proof {
                assert(intents@.take(i as int + 1).drop_last() =~= intents@.take(i as int));
            }
            bits = bits | intents[i].bits;
            i = i + 1;
        }
        proof {
            assert(intents@.take(i as int) =~= intents@);
        }
        Intent { bits }
    }
}

/// The bits of all intents in `s`, or-ed together.
pub open spec fn union_all(s: Seq<Intent>) -> u32
    decreases s.len(),
{
    if s.len() == 0 {
        0
    } else {
        union_all(s.drop_last()) | s.last().bits
    }
}

/// The gateway endpoint handed out by the REST interface.
#[derive(Debug)]
pub struct Gateway {
    pub url: String,
    pub shards: u32,
    pub session_start_limit: HashMap<String, u64>,
}

impl Gateway {
    /// A gateway that has not been negotiated yet: no url.
    pub fn new_placeholder() -> (r: Self)
        ensures
            r.url@.len() == 0,
            r.shards == 1,
            r.session_start_limit@ == Map::<String, u64>::empty(),
    {
        Self { url: String::new(), shards: 1, session_start_limit: HashMap::new() }
    }

    /// The tag that an envelope with opcode `opcode` is routed under: control
    /// opcodes get a tag of their own, every other envelope keeps the one it
    /// carries.
    pub fn opcode_conversion(opcode: u64, tag: Option<GatewayEventBinding>) -> (r: Option<
        GatewayEventBinding,
    >)
        ensures
            r == (match control_tag(opcode) {
                Some(t) => Some(t),
                None => tag,
            }),
    {
        if opcode == 11 {
            Some(GatewayEventBinding::HeartbeatOk)
        } else if opcode == 10 {
            Some(GatewayEventBinding::Hello)
        } else if opcode == 9 {
            Some(GatewayEventBinding::InvalidSession)
        } else if opcode == 7 {
            Some(GatewayEventBinding::Reconnect)
        } else if opcode == 1 {
            Some(GatewayEventBinding::Heartbeat)
        } else {
            tag
        }
    }
}

/// The tag given to a control opcode, `None` for the others.
pub open spec fn control_tag(opcode: u64) -> Option<GatewayEventBinding> {
    if opcode == 11 {
        Some(GatewayEventBinding::HeartbeatOk)
    } else if opcode == 10 {
        Some(GatewayEventBinding::Hello)
    } else if opcode == 9 {
        Some(GatewayEventBinding::InvalidSession)
    } else if opcode == 7 {
        Some(GatewayEventBinding::Reconnect)
    } else if opcode == 1 {
        Some(GatewayEventBinding::Heartbeat)
    } else {
        None
    }
}

/// The decoded body of an inbound envelope, by event tag.
#[derive(Debug)]
pub enum GatewayEvent {
    Hello(Hello),
    Ready(ReadyEvent),
    Resumed,
    Reconnect,
    InvalidSession,
    ChannelCreate(Channel),
    ChannelUpdate(Channel),
    ChannelDelete(Channel),
    ChannelPinsUpdate(ChannelPinUpdateEvent),
    ThreadCreate(Channel),
    ThreadUpdate(Channel),
    ThreadDelete(Channel),
    ThreadListSync,
    ThreadMemberUpdate,
    ThreadMembersUpdate,
    GuildCreate,
    GuildUpdate,
    GuildDelete,
    GuildBanAdd,
    GuildBanRemove,
    GuildEmojisUpdate,
    GuildStickersUpdate,
    GuildIntegrationsUpdate,
    GuildMemberAdd,
    GuildMemberRemove,
    GuildMemberUpdate,
    GuildMembersChunk,
    GuildRoleCreate,
    GuildRoleUpdate,
    GuildRoleDelete,
    IntegrationCreate,
    IntegrationUpdate,
    IntegrationDelete,
    InteractionCreate(Interaction),
    InviteCreate,
    InviteDelete,
    MessageCreate(Message),
    MessageUpdate,
    MessageDelete,
    MessageDeleteBulk,
    MessageReactionAdd(MessageReactionAddEvent),
    MessageReactionRemove,
    MessageReactionRemoveAll,
    MessageReactionRemoveEmoji,
    PresenceUpdate,
    StageInstanceCreate,
    StageInstanceDelete,
    StageInstanceUpdate,
    TypingStart,
    UserUpdate,
    VoiceStateUpdate,
    VoiceServerUpdate,
    WebhooksUpdate,
}

/// An inbound envelope: opcode, optional body, optional sequence number and
/// the tag it is routed under.
#[derive(Debug)]
pub struct Payload {
    pub opcode: u32,
    pub data: Option<GatewayEvent>,
    pub sequence: Option<u64>,
    pub gateway_type: Option<GatewayEventBinding>,
}

/// What the client sends in an identify envelope.
#[derive(Clone, Debug)]
pub struct IdentifyData {
    pub token: String,
    pub intents: u32,
    pub os: String,
    pub browser: String,
    pub device: String,
}

/// The body of an outbound envelope.
#[derive(Clone, Debug)]
pub enum OutboundData {
    /// The last sequence number seen, or the marker for none yet.
    Sequence(Option<u64>),
    Identify(IdentifyData),
}

/// An outbound envelope.
#[derive(Clone, Debug)]
pub struct OutboundPayload {
    pub opcode: u64,
    pub data: Option<OutboundData>,
    pub sequence: Option<u64>,
    pub gateway_type: Option<GatewayEventBinding>,
}

/// The errors of the connection and of routing.
#[derive(Clone, Copy, Debug, PartialEq, Eq, Structural)]
pub enum DiscordError {
    /// The gateway url was never negotiated.
    EndpointNotNegotiated,
    /// The gateway url does not parse.
    InvalidEndpoint,
    /// The first envelope after connecting was not a hello.
    HelloExpected,
    /// An interaction names a command that is not registered.
    UnregisteredCommand,
    /// An interaction of a kind other than application command.
    UnsupportedInteraction,
    /// An envelope whose body does not match its tag.
    UnexpectedPayload,
}

/// Whether `s` parses as an absolute url; a function of the text alone.
pub uninterp spec fn url_parses(s: Seq<char>) -> bool;

/// Relies on `url::Url::parse`: `Ok` exactly when the text is a valid
/// absolute url.
#[verifier::external_body]
fn parses_as_url(s: &str) -> (r: bool)
    ensures
        r == url_parses(s@),
{
    url::Url::parse(s).is_ok()
}

pub assume_specification<T>[ rand::random::<T> ]() -> (r: T)
    where
        rand::distributions::Standard: rand::distributions::Distribution<T>,
;

/// The endpoint to open, given whether `url` parses.
pub fn check_endpoint(url: &String, parses: bool) -> (r: Result<String, DiscordError>)
    ensures
        url@.len() == 0 ==> r == Err::<String, DiscordError>(DiscordError::EndpointNotNegotiated),
        url@.len() != 0 && !parses ==> r == Err::<String, DiscordError>(
            DiscordError::InvalidEndpoint,
        ),
        url@.len() != 0 && parses ==> r.is_ok() && r.unwrap()@ == url@,
{
    if url.as_str().is_empty() {
        Err(DiscordError::EndpointNotNegotiated)
    } else if !parses {
        Err(DiscordError::InvalidEndpoint)
    } else {
        Ok(url.clone())
    }
}

/// A delay drawn uniformly from `[0, interval)` by scaling a uniformly random
/// 64-bit number; zero when the interval is zero.
pub fn scaled_delay(interval: u64, random: u64) -> (r: u64)
    ensures
        r as int == (interval as int * random as int) / 0x1_0000_0000_0000_0000int,
        interval > 0 ==> r < interval,
        interval == 0 ==> r == 0,
{
    proof {
        assert((interval as int) * (random as int) <= 0xffff_ffff_ffff_ffffint
            * 0xffff_ffff_ffff_ffffint) by (nonlinear_arith)
            requires
                0 <= interval <= 0xffff_ffff_ffff_ffffint,
                0 <= random <= 0xffff_ffff_ffff_ffffint,
        ;
    }
    let product: u128 = (interval as u128) * (random as u128);
    let scaled: u128 = product / 0x1_0000_0000_0000_0000u128;
    proof {
        let i = interval as int;
        let x = random as int;
        assert(0 <= x < 0x1_0000_0000_0000_0000int);
        assert(i * x <= i * 0x1_0000_0000_0000_0000int) by (nonlinear_arith)
            requires
                0 <= x < 0x1_0000_0000_0000_0000int,
                0 <= i,
        ;
        assert(i > 0 ==> i * x < i * 0x1_0000_0000_0000_0000int) by (nonlinear_arith)
            requires
                0 <= x < 0x1_0000_0000_0000_0000int,
                0 <= i,
        ;
        assert((i * x) / 0x1_0000_0000_0000_0000int <= i) by (nonlinear_arith)
            requires
                0 <= i * x <= i * 0x1_0000_0000_0000_0000int,
        ;
        assert(i > 0 ==> (i * x) / 0x1_0000_0000_0000_0000int < i) by (nonlinear_arith)
            requires
                0 <= x < 0x1_0000_0000_0000_0000int,
                0 <= i,
                i > 0 ==> i * x < i * 0x1_0000_0000_0000_0000int,
        ;
    }
    scaled as u64
}

/// The sequence number recorded after seeing `seen` with `recorded` on
/// record: the greater of the two.
pub open spec fn max_seq(recorded: Option<u64>, seen: Option<u64>) -> Option<u64> {
    match (recorded, seen) {
        (_, None) => recorded,
        (None, Some(s)) => Some(s),
        (Some(r), Some(s)) => Some(if s > r { s } else { r }),
    }
}

/// The sequence number recorded after seeing each of `seen` in turn,
/// starting from `initial`.
pub open spec fn recorded_after(initial: Option<u64>, seen: Seq<Option<u64>>) -> Option<u64>
    decreases seen.len(),
{
    if seen.len() == 0 {
        initial
    } else {
        max_seq(recorded_after(initial, seen.drop_last()), seen.last())
    }
}

/// Stages of a gateway connection.
#[derive(Clone, Copy, Debug, PartialEq, Eq, Structural)]
pub enum ConnectionState {
    Disconnected,
    Connecting,
    AwaitingHello,
    Identifying,
    AwaitingReady,
    Active,
    Closed,
}

/// What happened to the connection.
#[derive(Debug)]
pub enum ConnectionEvent {
    /// The caller asks to connect.
    Connect,
    /// The transport is open.
    Connected,
    /// An envelope arrived.
    Received(Payload),
    /// The identify envelope went out.
    IdentifySent,
    /// The transport closed or a frame could not be decoded.
    TransportClosed,
}

/// What the caller has to do next.
#[derive(Debug)]
pub enum ConnectionAction {
    Nothing,
    /// Open the transport to this url.
    OpenTransport(String),
    /// Send this envelope.
    SendIdentify(OutboundPayload),
    /// Start the liveness loop and the read loop.
    StartLoops,
    /// Give up, for this reason.
    Fail(DiscordError),
}

/// `p` is the identify envelope of `c`, sent from an operating system
/// named `os`.
pub open spec fn is_identify(p: OutboundPayload, c: Client, os: Seq<char>) -> bool {
    &&& p.opcode == IDENTIFY_OPCODE
    &&& p.sequence.is_none()
    &&& p.gateway_type.is_none()
    &&& match p.data {
        Some(OutboundData::Identify(d)) => {
            &&& d.token@ == c.token@
            &&& d.intents == c.intents.bits
            &&& d.os@ == os
            &&& d.browser@ == LIBRARY_NAME@
            &&& d.device@ == LIBRARY_NAME@
        },
        _ => false,
    }
}

/// The connection identity: credentials, endpoint, protocol version, and
/// what the handshake and the envelopes since have told the client.
#[derive(Debug)]
pub struct Client {
    pub token: String,
    pub api_url: String,
    pub gateway: Gateway,
    pub api_ver: u32,
    pub heartbeat_interval: u64,
    pub intents: Intent,
    pub sequence: Option<u64>,
    pub application_id: Option<Snowflake>,
}

impl Client {
    pub fn new(api_ver: u32, token: String, intents: Vec<Intent>) -> (r: Self)
        ensures
            r.api_ver == (if is_valid_api(api_ver) { api_ver } else { DEFAULT_API_VERSION }),
            r.api_url@ == DISCORD_API@ + "/v"@ + decimal_digits(r.api_ver as nat),
            r.token == token,
            r.gateway.url@.len() == 0,
            r.heartbeat_interval == 0,
            r.intents.bits == union_all(intents@),
            r.sequence.is_none(),
            r.application_id.is_none(),
    {
        let api_ver = if api_ver == 7 || api_ver == 8 || api_ver == 9 {
            api_ver
        } else {
            DEFAULT_API_VERSION
        };
        let mut api_url = DISCORD_API.to_owned();
        api_url.append("/v");
        let version = u64_to_decimal(api_ver as u64);
        api_url.append(version.as_str());
        let intents = Intent::collect(&intents);
        Self {
            token,
            api_url,
            gateway: Gateway::new_placeholder(),
            api_ver,
            heartbeat_interval: 0,
            intents,
            sequence: None,
            application_id: None,
        }
    }

    /// The full url of a REST request whose path below the API root is
    /// `extension`.
    pub fn request_url(&self, extension: &str) -> (r: String)
        ensures
            r@ == self.api_url@ + extension@,
    {
        let mut url = self.api_url.clone();
        url.append(extension);
        url
    }

    /// The endpoint to open the gateway connection to.
    pub fn gateway_endpoint(&self) -> (r: Result<String, DiscordError>)
        ensures
            self.gateway.url@.len() == 0 ==> r == Err::<String, DiscordError>(
                DiscordError::EndpointNotNegotiated,
            ),
            self.gateway.url@.len() != 0 && !url_parses(self.gateway.url@) ==> r == Err::<
                String,
                DiscordError,
            >(DiscordError::InvalidEndpoint),
            self.gateway.url@.len() != 0 && url_parses(self.gateway.url@) ==> r.is_ok()
                && r.unwrap()@ == self.gateway.url@,
    {
        let parses = parses_as_url(self.gateway.url.as_str());
        check_endpoint(&self.gateway.url, parses)
    }

    /// Records the sequence number of an inbound envelope, keeping the
    /// greatest one seen.
    pub fn record_sequence(&mut self, sequence: Option<u64>)
        ensures
            final(self).sequence == max_seq(old(self).sequence, sequence),
            *final(self) == (Client { sequence: final(self).sequence, ..*old(self) }),
    {
        match sequence {
            Some(s) => {
                let greatest = match self.sequence {
                    Some(r) => if s > r {
                        s
                    } else {
                        r
                    },
                    None => s,
                };
                self.sequence = Some(greatest);
            },
            None => {},
        }
    }

    /// The liveness envelope: the last sequence number seen, or the marker
    /// for none.
    pub fn heartbeat_payload(&self) -> (r: OutboundPayload)
        ensures
            r.opcode == HEARTBEAT_OPCODE,
            r.data == Some(OutboundData::Sequence(self.sequence)),
            r.sequence.is_none(),
            r.gateway_type.is_none(),
    {
        OutboundPayload {
            opcode: HEARTBEAT_OPCODE,
            data: Some(OutboundData::Sequence(self.sequence)),
            sequence: None,
            gateway_type: None,
        }
    }

    /// The delay before the first liveness envelope: uniformly random below
    /// the heartbeat interval.
    pub fn first_heartbeat_delay(&self) -> (r: u64)
        ensures
            self.heartbeat_interval > 0 ==> r < self.heartbeat_interval,
            self.heartbeat_interval == 0 ==> r == 0,
    {
        let random: u64 = rand::random::<u64>();
        scaled_delay(self.heartbeat_interval, random)
    }

    /// The identify envelope, announcing the running operating system `os`.
    pub fn identify_payload(&self, os: &str) -> (r: OutboundPayload)
        ensures
            is_identify(r, *self, os@),
    {
        let data = IdentifyData {
            token: self.token.clone(),
            intents: self.intents.bits,
            os: os.to_owned(),
            browser: LIBRARY_NAME.to_owned(),
            device: LIBRARY_NAME.to_owned(),
        };
        OutboundPayload {
            opcode: IDENTIFY_OPCODE,
            data: Some(OutboundData::Identify(data)),
            sequence: None,
            gateway_type: None,
        }
    }

    /// Takes the heartbeat interval from a hello envelope.
    pub fn check_hello(&mut self, payload: &Payload) -> (r: Result<u64, DiscordError>)
        ensures
            match payload.data {
                Some(GatewayEvent::Hello(h)) => {
                    &&& r == Ok::<u64, DiscordError>(h.heartbeat_interval)
                    &&& *final(self) == (Client {
                        heartbeat_interval: h.heartbeat_interval,
                        ..*old(self)
                    })
                },
                _ => {
                    &&& r == Err::<u64, DiscordError>(DiscordError::HelloExpected)
                    &&& *final(self) == *old(self)
                },
            },
    {
        match &payload.data {
            Some(GatewayEvent::Hello(hello_message)) => {
                self.heartbeat_interval = hello_message.heartbeat_interval;
                Ok(hello_message.heartbeat_interval)
            },
            _ => Err(DiscordError::HelloExpected),
        }
    }

    /// One step of the handshake: from `state`, on `event`, the next state
    /// and what the caller has to do.
    pub fn advance(&mut self, state: ConnectionState, event: ConnectionEvent, os: &str) -> (r: (
        ConnectionState,
        ConnectionAction,
    ))
        ensures
            match (state, event) {
                (_, ConnectionEvent::TransportClosed) => {
                    &&& r.0 == ConnectionState::Closed
                    &&& r.1 is Nothing
                    &&& *final(self) == *old(self)
                },
                (ConnectionState::Disconnected, ConnectionEvent::Connect) => {
                    &&& *final(self) == *old(self)
                    &&& old(self).gateway.url@.len() == 0 ==> r.0 == ConnectionState::Closed
                        && r.1 == ConnectionAction::Fail(DiscordError::EndpointNotNegotiated)
                    &&& old(self).gateway.url@.len() != 0 && !url_parses(old(self).gateway.url@)
                        ==> r.0 == ConnectionState::Closed && r.1 == ConnectionAction::Fail(
                        DiscordError::InvalidEndpoint,
                    )
                    &&& old(self).gateway.url@.len() != 0 && url_parses(old(self).gateway.url@)
                        ==> r.0 == ConnectionState::Connecting && r.1 is OpenTransport
                        && r.1->OpenTransport_0@ == old(self).gateway.url@
                },
                (ConnectionState::Connecting, ConnectionEvent::Connected) => {
                    &&& r.0 == ConnectionState::AwaitingHello
                    &&& r.1 is Nothing
                    &&& *final(self) == *old(self)
                },
                (ConnectionState::AwaitingHello, ConnectionEvent::Received(p)) => match p.data {
                    Some(GatewayEvent::Hello(h)) => {
                        &&& *final(self) == (Client {
                            heartbeat_interval: h.heartbeat_interval,
                            ..*old(self)
                        })
                        &&& r.0 == ConnectionState::Identifying
                        &&& r.1 is SendIdentify
                        &&& is_identify(r.1->SendIdentify_0, *final(self), os@)
                    },
                    _ => {
                        &&& r.0 == ConnectionState::Closed
                        &&& r.1 == ConnectionAction::Fail(DiscordError::HelloExpected)
                        &&& *final(self) == *old(self)
                    },
                },
                (ConnectionState::Identifying, ConnectionEvent::IdentifySent) => {
                    &&& r.0 == ConnectionState::AwaitingReady
                    &&& r.1 is Nothing
                    &&& *final(self) == *old(self)
                },
                (ConnectionState::AwaitingReady, ConnectionEvent::Received(p)) => match p.data {
                    Some(GatewayEvent::Ready(ready)) => {
                        &&& *final(self) == (Client {
                            application_id: Some(ready.application.id),
                            ..*old(self)
                        })
                        &&& r.0 == ConnectionState::Active
                        &&& r.1 is StartLoops
                    },
                    _ => {
                        &&& r.0 == ConnectionState::AwaitingReady
                        &&& r.1 is Nothing
                        &&& *final(self) == *old(self)
                    },
                },
                _ => {
                    &&& r.0 == state
                    &&& r.1 is Nothing
                    &&& *final(self) == *old(self)
                },
            },
    {
        match (state, event) {
            (_, ConnectionEvent::TransportClosed) => (ConnectionState::Closed, ConnectionAction::Nothing),
            (ConnectionState::Disconnected, ConnectionEvent::Connect) => {
                match self.gateway_endpoint() {
                    Ok(url) => (ConnectionState::Connecting, ConnectionAction::OpenTransport(url)),
                    Err(e) => (ConnectionState::Closed, ConnectionAction::Fail(e)),
                }
            },
            (ConnectionState::Connecting, ConnectionEvent::Connected) => {
                (ConnectionState::AwaitingHello, ConnectionAction::Nothing)
            },
            (ConnectionState::AwaitingHello, ConnectionEvent::Received(payload)) => {
                match self.check_hello(&payload) {
                    Ok(_) => {
                        let identify = self.identify_payload(os);
                        (ConnectionState::Identifying, ConnectionAction::SendIdentify(identify))
                    },
                    Err(e) => (ConnectionState::Closed, ConnectionAction::Fail(e)),
                }
            },
            (ConnectionState::Identifying, ConnectionEvent::IdentifySent) => {
                (ConnectionState::AwaitingReady, ConnectionAction::Nothing)
            },
            (ConnectionState::AwaitingReady, ConnectionEvent::Received(payload)) => {
                match payload.data {
                    Some(GatewayEvent::Ready(ready_event)) => {
                        self.application_id = Some(ready_event.application.id);
                        (ConnectionState::Active, ConnectionAction::StartLoops)
                    },
                    _ => (ConnectionState::AwaitingReady, ConnectionAction::Nothing),
                }
            },
            _ => (state, ConnectionAction::Nothing),
        }
    }
}

/// After any run of envelopes, starting with nothing recorded, the recorded
/// sequence number is the greatest one seen, and nothing when none carried
/// one.
pub proof fn lemma_recorded_sequence_is_greatest(seen: Seq<Option<u64>>)
    ensures
        recorded_after(None, seen).is_none() <==> forall|i: int|
            0 <= i < seen.len() ==> (#[trigger] seen[i]).is_none(),
        recorded_after(None, seen).is_some() ==> exists|i: int|
            0 <= i < seen.len() && #[trigger] seen[i] == recorded_after(None, seen),
        forall|i: int|
            0 <= i < seen.len() && (#[trigger] seen[i]).is_some() ==> seen[i].unwrap()
                <= recorded_after(None, seen).unwrap(),
    decreases seen.len(),
{
    if seen.len() > 0 {
        let prefix = seen.drop_last();
        lemma_recorded_sequence_is_greatest(prefix);
        assert forall|i: int| 0 <= i < prefix.len() implies #[trigger] prefix[i] == seen[i] by {}
        let before = recorded_after(None, prefix);
        if before.is_some() {
            let k = choose|k: int| 0 <= k < prefix.len() && #[trigger] prefix[k] == before;
            assert(seen[k] == before);
        }
        assert(seen[seen.len() - 1] == seen.last());
        assert forall|i: int|
            0 <= i < seen.len() && (#[trigger] seen[i]).is_some() implies seen[i].unwrap()
                <= recorded_after(None, seen).unwrap() by {
            if i < prefix.len() {
                assert(prefix[i] == seen[i]);
                assert(prefix[i].unwrap() <= before.unwrap());
            }
        }
        if recorded_after(None, seen).is_none() {
            assert forall|i: int| 0 <= i < seen.len() implies (#[trigger] seen[i]).is_none() by {
                if i < prefix.len() {
                    assert(prefix[i] == seen[i]);
                }
            }
        }
    }
}

} // verus!

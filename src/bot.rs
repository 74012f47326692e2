//! The bot: the connection identity, the handlers registered for gateway
//! events and for commands, and what happens to each inbound envelope.

use std::collections::HashMap;
use vstd::prelude::*;

use crate::disc_objects::{binding_code, lemma_binding_code_injective, GatewayEventBinding};
use crate::discord::{union_all, Client, DiscordError, Gateway, Intent, Payload};
use crate::interactions::{
    interaction_outcome, matches_outcome, AppCommand, AppCommandMap, CommandBucket,
    InteractionCommand, bucket,
};

verus! {

broadcast use vstd::std_specs::hash::group_hash_axioms;

/// The handlers registered for gateway events, at most one per event tag.
#[derive(Debug)]
pub struct EventMap<H> {
    handlers: HashMap<u64, H>,
}

impl<H> View for EventMap<H> {
    type V = Map<GatewayEventBinding, H>;

    open spec fn view(&self) -> Map<GatewayEventBinding, H> {
        Map::new(
            |b: GatewayEventBinding| self.codes().contains_key(binding_code(b)),
            |b: GatewayEventBinding| self.codes()[binding_code(b)],
        )
    }
}

impl<H> EventMap<H> {
    /// The handlers by tag code.
    pub closed spec fn codes(&self) -> Map<u64, H> {
        self.handlers@
    }

    pub fn new() -> (r: Self)
        ensures
            r@ == Map::<GatewayEventBinding, H>::empty(),
    {
        let r = EventMap { handlers: HashMap::new() };
        assert(r@ =~= Map::<GatewayEventBinding, H>::empty());
        r
    }

    /// Registers `handler` for `tag`, replacing the one registered before.
    pub fn insert(&mut self, tag: GatewayEventBinding, handler: H)
        ensures
            final(self)@ == old(self)@.insert(tag, handler),
    {
        let ghost before = self.handlers@;
        let code = tag.code();
        self.handlers.insert(code, handler);
        proof {
            assert forall|b: GatewayEventBinding| #[trigger]
                self@.contains_key(b) <==> old(self)@.insert(tag, handler).contains_key(b) by {
                lemma_binding_code_injective(b, tag);
            }
            assert forall|b: GatewayEventBinding| #[trigger]
                self@.contains_key(b) implies self@[b] == old(self)@.insert(tag, handler)[b] by {
                lemma_binding_code_injective(b, tag);
            }
            assert(self@ =~= old(self)@.insert(tag, handler));
        }
    }

    /// The handler to run for `payload`: the one registered for its tag, if
    /// it carries a body and a tag.
    pub fn handler_for(&self, payload: &Payload) -> (r: Option<&H>)
        ensures
            match (payload.data, payload.gateway_type) {
                (Some(_), Some(t)) => if self@.contains_key(t) {
                    r.is_some() && *r.unwrap() == self@[t]
                } else {
                    r.is_none()
                },
                _ => r.is_none(),
            },
    {
        if payload.data.is_none() {
            return None;
        }
        match &payload.gateway_type {
            None => None,
            Some(tag) => {
                let code = tag.code();
                self.handlers.get(&code)
            },
        }
    }
}

/// A bot: its connection identity, its event handlers of type `E` and its
/// command handlers of type `I`.
#[derive(Debug)]
pub struct Bot<E, I> {
    pub client: Client,
    pub gateway_event_map: EventMap<E>,
    pub interaction_map: AppCommandMap<I>,
    pub sync_commands: bool,
}

impl<E, I> Bot<E, I> {
    pub fn new(api_ver: u32, token: String, intents: Vec<Intent>) -> (r: Self)
        ensures
            r.client.token == token,
            r.client.api_ver == (if crate::discord::is_valid_api(api_ver) {
                api_ver
            } else {
                crate::discord::DEFAULT_API_VERSION
            }),
            r.client.api_url@ == crate::discord::DISCORD_API@ + "/v"@ + crate::decimal::decimal_digits(
                r.client.api_ver as nat,
            ),
            r.client.intents.bits == union_all(intents@),
            r.client.heartbeat_interval == 0,
            r.client.gateway.url@.len() == 0,
            r.client.sequence.is_none(),
            r.client.application_id.is_none(),
            r.gateway_event_map@ == Map::<GatewayEventBinding, E>::empty(),
            r.interaction_map.wf(),
            r.interaction_map.commands().len() == 0,
            !r.sync_commands,
    {
        let client = Client::new(api_ver, token, intents);
        Self {
            client,
            gateway_event_map: EventMap::new(),
            interaction_map: AppCommandMap::new(),
            sync_commands: false,
        }
    }

    /// Asks for the commands to be registered with the service once the
    /// connection is up.
    pub fn sync_commands(&mut self)
        ensures
            final(self).sync_commands,
            final(self).client == old(self).client,
            final(self).gateway_event_map == old(self).gateway_event_map,
            final(self).interaction_map == old(self).interaction_map,
    {
        self.sync_commands = true;
    }

    /// Registers `function` for `gateway_event`; a later registration for
    /// the same tag replaces it.
    pub fn add_event(&mut self, gateway_event: GatewayEventBinding, function: E)
        ensures
            final(self).gateway_event_map@ == old(self).gateway_event_map@.insert(
                gateway_event,
                function,
            ),
            final(self).client == old(self).client,
            final(self).interaction_map == old(self).interaction_map,
            final(self).sync_commands == old(self).sync_commands,
    {
        self.gateway_event_map.insert(gateway_event, function);
    }

    /// Installs the gateway endpoint that the REST interface handed out.
    pub fn update_client_gateway(&mut self, gateway: Gateway)
        ensures
            final(self).client == (Client { gateway, ..old(self).client }),
            final(self).gateway_event_map == old(self).gateway_event_map,
            final(self).interaction_map == old(self).interaction_map,
            final(self).sync_commands == old(self).sync_commands,
    {
        self.client.gateway = gateway;
    }

    /// Registers `command` with handler `function` in the guilds
    /// `guild_ids`, or everywhere when there are none; a later registration
    /// of the same kind and name replaces it.
    pub fn add_app_command(&mut self, command: AppCommand, function: I, guild_ids: Vec<u64>)
        requires
            old(self).interaction_map.wf(),
        ensures
            final(self).interaction_map.wf(),
            final(self).interaction_map@ == old(self).interaction_map@.insert(
                (command.app_command_type, command.name@),
                InteractionCommand {
                    app_command: command,
                    guild_ids: if guild_ids@.len() == 0 {
                        None
                    } else {
                        Some(guild_ids)
                    },
                    function,
                },
            ),
            final(self).client == old(self).client,
            final(self).gateway_event_map == old(self).gateway_event_map,
            final(self).sync_commands == old(self).sync_commands,
    {
        let guild_ids = if guild_ids.len() == 0 {
            None
        } else {
            Some(guild_ids)
        };
        let interaction_command = InteractionCommand::new(command, function, guild_ids);
        self.interaction_map.insert(interaction_command);
    }

    /// The registered commands grouped by the scope they are registered in.
    pub fn register_commands(&self) -> (r: Vec<CommandBucket>)
        requires
            self.interaction_map.wf(),
        ensures
            forall|a: int, b: int|
                0 <= a < r@.len() && 0 <= b < r@.len() && a != b ==> (#[trigger] r@[a]).scope
                    != (#[trigger] r@[b]).scope,
            forall|a: int|
                0 <= a < r@.len() ==> (#[trigger] r@[a]).commands@ == bucket(
                    self.interaction_map.commands(),
                    r@[a].scope,
                ),
            forall|x|
                bucket(self.interaction_map.commands(), x).len() > 0 <==> exists|a: int|
                    0 <= a < r@.len() && (#[trigger] r@[a]).scope == x,
    {
        self.interaction_map.buckets()
    }

    /// What to do with an inbound envelope: its sequence number is recorded
    /// first, whatever it holds; then the event handler for its tag, and, for
    /// an interaction, the command handler, are looked up.
    pub fn read<'a>(
        client: &mut Client,
        gateway_event_map: &'a EventMap<E>,
        interaction_map: Option<&'a AppCommandMap<I>>,
        payload: &Payload,
    ) -> (r: (Option<&'a E>, Option<Result<&'a I, DiscordError>>))
        requires
            match interaction_map {
                Some(m) => m.wf(),
                None => true,
            },
        ensures
            final(client).sequence == crate::discord::max_seq(old(client).sequence, payload.sequence),
            *final(client) == (Client { sequence: final(client).sequence, ..*old(client) }),
            match (payload.data, payload.gateway_type) {
                (Some(_), Some(t)) => if gateway_event_map@.contains_key(t) {
                    r.0.is_some() && *r.0.unwrap() == gateway_event_map@[t]
                } else {
                    r.0.is_none()
                },
                _ => r.0.is_none(),
            },
            match (payload.data, payload.gateway_type, interaction_map) {
                (Some(_), Some(GatewayEventBinding::InteractionCreate), Some(m)) => matches_outcome(
                    r.1,
                    interaction_outcome(*m, payload.data),
                ),
                _ => r.1.is_none(),
            },
    {
        client.record_sequence(payload.sequence);
        if payload.data.is_none() {
            return (None, None);
        }
        let event = gateway_event_map.handler_for(payload);
        let interaction = match (&payload.gateway_type, interaction_map) {
            (Some(GatewayEventBinding::InteractionCreate), Some(m)) => m.handle_interaction(
                &payload.data,
            ),
            _ => None,
        };
        (event, interaction)
    }
}

/// Registering two handlers for one tag leaves the second: it is the one
/// dispatched for that tag, and the other tags keep theirs.
pub proof fn lemma_second_registration_wins<H>(
    m: Map<GatewayEventBinding, H>,
    tag: GatewayEventBinding,
    first: H,
    second: H,
)
    ensures
        m.insert(tag, first).insert(tag, second) == m.insert(tag, second),
        m.insert(tag, first).insert(tag, second)[tag] == second,
        forall|t: GatewayEventBinding|
            t != tag ==> (#[trigger] m.insert(tag, first).insert(tag, second).contains_key(t)
                == m.contains_key(t)),
{
    assert(m.insert(tag, first).insert(tag, second) =~= m.insert(tag, second));
}

} // verus!

//! Application commands: their declarations, the registry that maps a
//! command's kind and name to its handler, the routing of inbound
//! interactions, and the grouping of commands by the scope they are
//! registered in.

use vstd::prelude::*;

use crate::decimal::{decimal_digits, u64_to_decimal};
use crate::disc_objects::{
    AppCommandOptionType, AppCommandValue, ApplicationCommandType, ChannelType, Interaction,
    InteractionType, Snowflake, items_of, snowflake_text,
};
use crate::discord::{DiscordError, GatewayEvent};

verus! {

pub type CommandType = ApplicationCommandType;

/// A command declaration.
#[derive(Debug)]
pub struct AppCommand {
    pub id: Option<Snowflake>,
    pub app_command_type: ApplicationCommandType,
    pub application_id: Option<Snowflake>,
    pub guild_id: Option<Snowflake>,
    pub name: String,
    pub description: Option<String>,
    pub options: Vec<AppCommandOption>,
    pub default_permission: Option<bool>,
    pub version: Option<Snowflake>,
}

/// An option of a command: an argument, or a sub-command with options of
/// its own.
#[derive(Debug)]
pub struct AppCommandOption {
    pub app_command_option_type: AppCommandOptionType,
    pub name: String,
    pub description: String,
    pub required: Option<bool>,
    pub choices: Option<Vec<AppCommandChoice>>,
    pub options: Option<Vec<AppCommandOption>>,
    pub channel_types: Option<Vec<ChannelType>>,
}

/// One of the fixed values an option may be restricted to.
#[derive(Clone, Debug)]
pub struct AppCommandChoice {
    pub name: String,
    pub value: AppCommandValue,
}

/// Option types that may carry choices.
pub open spec fn accepts_choices(t: AppCommandOptionType) -> bool {
    t == AppCommandOptionType::String || t == AppCommandOptionType::Integer || t
        == AppCommandOptionType::Number
}

/// Option types that may carry nested options.
pub open spec fn accepts_options(t: AppCommandOptionType) -> bool {
    t == AppCommandOptionType::SubCommand || t == AppCommandOptionType::SubCommandGroup
}

impl AppCommandChoice {
    pub fn new(name: &str, value: AppCommandValue) -> (r: Self)
        ensures
            r.name@ == name@,
            r.value == value,
    {
        Self { name: name.to_owned(), value }
    }
}

impl AppCommandOption {
    pub fn new(name: &str, description: &str, option_type: AppCommandOptionType) -> (r: Self)
        ensures
            r.name@ == name@,
            r.description@ == description@,
            r.app_command_option_type == option_type,
            r.required.is_none(),
            r.choices.is_none(),
            r.options.is_none(),
            r.channel_types.is_none(),
    {
        Self {
            name: name.to_owned(),
            description: description.to_owned(),
            app_command_option_type: option_type,
            required: None,
            choices: None,
            options: None,
            channel_types: None,
        }
    }

    /// Toggles whether the option is required; an option that never said
    /// becomes required.
    pub fn required(self) -> (r: Self)
        ensures
            r == (AppCommandOption {
                required: Some(
                    !(match self.required {
                        Some(b) => b,
                        None => false,
                    }),
                ),
                ..self
            }),
    {
        let mut option = self;
        let current = match option.required {
            Some(b) => b,
            None => false,
        };
        option.required = Some(!current);
        option
    }

    /// Adds a choice named `name` with value `value`; only string, integer
    /// and number options take choices.
    pub fn add_choice(self, name: &str, value: AppCommandValue) -> (r: Self)
        requires
            accepts_choices(self.app_command_option_type),
        ensures
            r.choices.is_some(),
            r.choices.unwrap()@.drop_last() == items_of(self.choices),
            r.choices.unwrap()@.len() == items_of(self.choices).len() + 1,
            r.choices.unwrap()@.last().name@ == name@,
            r.choices.unwrap()@.last().value == value,
            r == (AppCommandOption { choices: r.choices, ..self }),
    {
        let choice = AppCommandChoice::new(name, value);
        self.add_choice_from_struct(choice)
    }

    /// Adds `choice`; only string, integer and number options take choices.
    pub fn add_choice_from_struct(self, choice: AppCommandChoice) -> (r: Self)
        requires
            accepts_choices(self.app_command_option_type),
        ensures
            r == (AppCommandOption { choices: Some(r.choices.unwrap()), ..self }),
            r.choices.unwrap()@ == items_of(self.choices).push(choice),
    {
        let mut option = self;
        let choices = match option.choices {
            Some(mut current) => {
                current.push(choice);
                current
            },
            None => vec![choice],
        };
        option.choices = Some(choices);
        option
    }

    /// Restricts a channel option to one more channel type.
    pub fn add_channel_type(self, channel_type: ChannelType) -> (r: Self)
        requires
            self.app_command_option_type == AppCommandOptionType::Channel,
        ensures
            r == (AppCommandOption { channel_types: Some(r.channel_types.unwrap()), ..self }),
            r.channel_types.unwrap()@ == items_of(self.channel_types).push(channel_type),
    {
        let mut option = self;
        let channel_types = match option.channel_types {
            Some(mut current) => {
                current.push(channel_type);
                current
            },
            None => vec![channel_type],
        };
        option.channel_types = Some(channel_types);
        option
    }

    /// Restricts a channel option to more channel types, in order.
    pub fn add_channel_types(self, channel_types: Vec<ChannelType>) -> (r: Self)
        requires
            self.app_command_option_type == AppCommandOptionType::Channel,
        ensures
            r == (AppCommandOption { channel_types: Some(r.channel_types.unwrap()), ..self }),
            r.channel_types.unwrap()@ == items_of(self.channel_types) + channel_types@,
    {
        let mut option = self;
        let mut added = channel_types;
        let all = match option.channel_types {
            Some(mut current) => {
                current.append(&mut added);
                current
            },
            None => added,
        };
        option.channel_types = Some(all);
        option
    }

    /// Nests `option` below a sub-command or sub-command group.
    pub fn add_option(self, option: AppCommandOption) -> (r: Self)
        requires
            accepts_options(self.app_command_option_type),
        ensures
            r == (AppCommandOption { options: Some(r.options.unwrap()), ..self }),
            r.options.unwrap()@ == items_of(self.options).push(option),
    {
        let mut parent = self;
        let options = match parent.options {
            Some(mut current) => {
                current.push(option);
                current
            },
            None => vec![option],
        };
        parent.options = Some(options);
        parent
    }
}

impl AppCommand {
    pub fn new(name: &str, description: &str, app_command_type: ApplicationCommandType) -> (r:
        Self)
        ensures
            r.id.is_none(),
            r.app_command_type == app_command_type,
            r.application_id.is_none(),
            r.guild_id.is_none(),
            r.name@ == name@,
            r.description.is_some() && r.description.unwrap()@ == description@,
            r.options@.len() == 0,
            r.default_permission.is_none(),
            r.version.is_none(),
    {
        Self {
            id: None,
            app_command_type,
            application_id: None,
            guild_id: None,
            name: name.to_owned(),
            description: Some(description.to_owned()),
            options: vec![],
            default_permission: None,
            version: None,
        }
    }

    pub fn add_option(self, option: AppCommandOption) -> (r: Self)
        ensures
            r == (AppCommand { options: r.options, ..self }),
            r.options@ == self.options@.push(option),
    {
        let mut command = self;
        command.options.push(option);
        command
    }
}

/// The description a command is registered with: chat-input commands keep
/// theirs, user and message commands must have none.
pub open spec fn synced_description(c: AppCommand) -> Option<String> {
    if c.app_command_type == ApplicationCommandType::ChatInput {
        c.description
    } else {
        None
    }
}

/// The description to send when registering `command`.
pub fn sync_description(command: &AppCommand) -> (r: Option<&String>)
    ensures
        match synced_description(*command) {
            Some(d) => r.is_some() && *r.unwrap() == d,
            None => r.is_none(),
        },
{
    match command.app_command_type {
        ApplicationCommandType::ChatInput => command.description.as_ref(),
        _ => None,
    }
}

/// A registered command: its declaration, the guilds it is registered in
/// (none: everywhere), and its handler.
#[derive(Debug)]
pub struct InteractionCommand<H> {
    pub app_command: AppCommand,
    pub guild_ids: Option<Vec<u64>>,
    pub function: H,
}

impl<H> InteractionCommand<H> {
    pub fn new(app_command: AppCommand, function: H, guild_ids: Option<Vec<u64>>) -> (r: Self)
        ensures
            r == (InteractionCommand { app_command, guild_ids, function }),
    {
        Self { app_command, function, guild_ids }
    }
}

/// The key a command is registered under: its kind and its name.
pub open spec fn key_of<H>(c: InteractionCommand<H>) -> (ApplicationCommandType, Seq<char>) {
    (c.app_command.app_command_type, c.app_command.name@)
}

/// No two commands share a key.
pub open spec fn unique_keys<H>(s: Seq<InteractionCommand<H>>) -> bool {
    forall|i: int, j: int|
        0 <= i < s.len() && 0 <= j < s.len() && i != j ==> key_of(#[trigger] s[i]) != key_of(
            #[trigger] s[j],
        )
}

/// Some command in `s` has key `k`.
pub open spec fn has_key<H>(s: Seq<InteractionCommand<H>>, k: (ApplicationCommandType, Seq<char>)) -> bool {
    exists|i: int| 0 <= i < s.len() && key_of(#[trigger] s[i]) == k
}

/// The position of the command with key `k` in `s`.
pub open spec fn index_of<H>(s: Seq<InteractionCommand<H>>, k: (ApplicationCommandType, Seq<char>)) -> int {
    choose|i: int| 0 <= i < s.len() && key_of(#[trigger] s[i]) == k
}

/// The registry of commands: kind and name to registered command.
#[derive(Debug)]
pub struct AppCommandMap<H> {
    entries: Vec<InteractionCommand<H>>,
}

impl<H> View for AppCommandMap<H> {
    type V = Map<(ApplicationCommandType, Seq<char>), InteractionCommand<H>>;

    open spec fn view(&self) -> Self::V {
        Map::new(
            |k: (ApplicationCommandType, Seq<char>)| has_key(self.commands(), k),
            |k: (ApplicationCommandType, Seq<char>)| self.commands()[index_of(self.commands(), k)],
        )
    }
}

/// Each key of a registry with unique keys maps to the command stored under
/// it.
proof fn lemma_view_at<H>(s: Seq<InteractionCommand<H>>, i: int)
    requires
        unique_keys(s),
        0 <= i < s.len(),
    ensures
        has_key(s, key_of(s[i])),
        index_of(s, key_of(s[i])) == i,
{
    let k = key_of(s[i]);
    assert(has_key(s, k));
    let j = index_of(s, k);
    assert(key_of(s[j]) == k);
}

impl<H> AppCommandMap<H> {
    /// The registered commands, in order of first registration.
    pub closed spec fn commands(&self) -> Seq<InteractionCommand<H>> {
        self.entries@
    }

    pub open spec fn wf(&self) -> bool {
        unique_keys(self.commands())
    }

    pub fn new() -> (r: Self)
        ensures
            r.wf(),
            r.commands().len() == 0,
            r@ == Map::<(ApplicationCommandType, Seq<char>), InteractionCommand<H>>::empty(),
    {
        let r = Self { entries: Vec::new() };
        assert(r@ =~= Map::<(ApplicationCommandType, Seq<char>), InteractionCommand<H>>::empty());
        r
    }

    pub fn len(&self) -> (r: usize)
        ensures
            r == self.commands().len(),
    {
        self.entries.len()
    }

    /// The command at position `i`, as named by a bucket.
    pub fn command_at(&self, i: usize) -> (r: &InteractionCommand<H>)
        requires
            i < self.commands().len(),
        ensures
            *r == self.commands()[i as int],
    {
        &self.entries[i]
    }

    /// The position of the command with kind `kind` and name `name`.
    fn find(&self, kind: ApplicationCommandType, name: &String) -> (r: Option<usize>)
        requires
            self.wf(),
        ensures
            match r {
                Some(i) => i < self.commands().len() && key_of(self.commands()[i as int]) == (
                    kind,
                    name@,
                ),
                None => !has_key(self.commands(), (kind, name@)),
            },
    {
        let mut i: usize = 0;
        while i < self.entries.len()
            invariant
                i <= self.entries.len(),
                forall|j: int|
                    0 <= j < i ==> key_of(#[trigger] self.entries@[j]) != (kind, name@),
            decreases self.entries.len() - i,
        {
            let entry = &self.entries[i];
            if entry.app_command.app_command_type == kind && entry.app_command.name == *name {
                return Some(i);
            }
            i = i + 1;
        }
        None
    }

    /// Registers `command` under its key, replacing what was there.
    pub fn insert(&mut self, command: InteractionCommand<H>)
        requires
            old(self).wf(),
        ensures
            final(self).wf(),
            final(self)@ == old(self)@.insert(key_of(command), command),
    {
        let ghost k = key_of(command);
        let ghost old_s = self.entries@;
        let found = self.find(command.app_command.app_command_type, &command.app_command.name);
        match found {
            Some(i) => {
                self.entries.set(i, command);
                proof {
                    let s = self.entries@;
                    assert(s == old_s.update(i as int, command));
                    assert forall|a: int, b: int|
                        0 <= a < s.len() && 0 <= b < s.len() && a != b implies key_of(
                        #[trigger] s[a],
                    ) != key_of(#[trigger] s[b]) by {
                        if a == i {
                            assert(key_of(old_s[b]) != key_of(old_s[a]));
                        } else if b == i {
                            assert(key_of(old_s[b]) != key_of(old_s[a]));
                        } else {
                        }
                    }
                    self.lemma_view_insert(old_s, i as int, command);
                }
            },
            None => {
                self.entries.push(command);
                proof {
                    let s = self.entries@;
                    assert(s == old_s.push(command));
                    assert forall|a: int, b: int|
                        0 <= a < s.len() && 0 <= b < s.len() && a != b implies key_of(
                        #[trigger] s[a],
                    ) != key_of(#[trigger] s[b]) by {
                        if a == old_s.len() {
                            assert(key_of(s[b]) == key_of(old_s[b]));
                        } else if b == old_s.len() {
                            assert(key_of(s[a]) == key_of(old_s[a]));
                        } else {
                            assert(s[a] == old_s[a] && s[b] == old_s[b]);
                        }
                    }
                    self.lemma_view_insert(old_s, old_s.len() as int, command);
                }
            },
        }
    }

    /// The registry after storing `c` at position `i` of `old_s` (or after
    /// it, when `i` is its length) is the old one with `c` under its key.
    proof fn lemma_view_insert(
        &self,
        old_s: Seq<InteractionCommand<H>>,
        i: int,
        c: InteractionCommand<H>,
    )
        requires
            unique_keys(old_s),
            unique_keys(self.commands()),
            0 <= i <= old_s.len(),
            i < old_s.len() ==> self.commands() == old_s.update(i, c) && key_of(old_s[i])
                == key_of(c),
            i == old_s.len() ==> self.commands() == old_s.push(c) && !has_key(old_s, key_of(c)),
        ensures
            self@ == Map::new(
                |k: (ApplicationCommandType, Seq<char>)| has_key(old_s, k),
                |k: (ApplicationCommandType, Seq<char>)| old_s[index_of(old_s, k)],
            ).insert(key_of(c), c),
    {
        let s = self.commands();
        let old_m = Map::new(
            |k: (ApplicationCommandType, Seq<char>)| has_key(old_s, k),
            |k: (ApplicationCommandType, Seq<char>)| old_s[index_of(old_s, k)],
        );
        let new_m = old_m.insert(key_of(c), c);
        assert(s[i] == c);
        lemma_view_at(s, i);
        assert forall|k: (ApplicationCommandType, Seq<char>)| #[trigger]
            self@.contains_key(k) <==> new_m.contains_key(k) by {
            if has_key(s, k) {
                let j = index_of(s, k);
                if j != i {
                    assert(s[j] == old_s[j]);
                    assert(has_key(old_s, k));
                }
            }
            if has_key(old_s, k) {
                let j = index_of(old_s, k);
                if j != i {
                    assert(s[j] == old_s[j]);
                    assert(has_key(s, k));
                }
            }
        }
        assert forall|k: (ApplicationCommandType, Seq<char>)|
            #[trigger] self@.contains_key(k) implies self@[k] == new_m[k] by {
            if k != key_of(c) {
                let j = index_of(s, k);
                assert(0 <= j < s.len() && key_of(s[j]) == k);
                assert(j != i);
                assert(s[j] == old_s[j]);
                lemma_view_at(old_s, j);
            }
        }
        assert(self@ =~= new_m);
    }

    /// The handler of the command that `interaction` invokes: `None` when it
    /// carries no command data.
    pub fn handle_app_command(&self, interaction: &Interaction) -> (r: Result<Option<&H>, DiscordError>)
        requires
            self.wf(),
        ensures
            match interaction.data {
                None => r == Ok::<Option<&H>, DiscordError>(None),
                Some(d) => if interaction.interaction_type != InteractionType::ApplicationCommand {
                    r == Err::<Option<&H>, DiscordError>(DiscordError::UnsupportedInteraction)
                } else if self@.contains_key((d.interaction_data_type, d.name@)) {
                    r.is_ok() && r.unwrap().is_some() && *r.unwrap().unwrap() == self@[(
                        d.interaction_data_type,
                        d.name@,
                    )].function
                } else {
                    r == Err::<Option<&H>, DiscordError>(DiscordError::UnregisteredCommand)
                },
            },
    {
        match &interaction.data {
            None => Ok(None),
            Some(data) => {
                if interaction.interaction_type != InteractionType::ApplicationCommand {
                    Err(DiscordError::UnsupportedInteraction)
                } else {
                    match self.find(data.interaction_data_type, &data.name) {
                        Some(i) => {
                            proof {
                                lemma_view_at(self.commands(), i as int);
                            }
                            Ok(Some(&self.entries[i].function))
                        },
                        None => Err(DiscordError::UnregisteredCommand),
                    }
                }
            },
        }
    }
}

/// Where a command is registered: everywhere, or in one guild.
#[derive(Clone, Copy, Debug, PartialEq, Eq, Hash, Structural)]
pub enum CommandScope {
    Global,
    Guild(u64),
}

/// The commands to register in one scope, as positions in the registry, in
/// registry order.
#[derive(Debug)]
pub struct CommandBucket {
    pub scope: CommandScope,
    pub commands: Vec<usize>,
}

/// How many times `g` occurs in `s`.
pub open spec fn count_of(s: Seq<u64>, g: u64) -> nat
    decreases s.len(),
{
    if s.len() == 0 {
        0
    } else {
        count_of(s.drop_last(), g) + if s.last() == g {
            1nat
        } else {
            0nat
        }
    }
}

/// How many times a command with target guilds `guild_ids` goes into the
/// bucket of `scope`: a command with no target guilds goes to the global
/// bucket once, any other once per listing of the guild.
pub open spec fn targets(guild_ids: Option<Vec<u64>>, scope: CommandScope) -> nat {
    let gids = items_of(guild_ids);
    if gids.len() == 0 {
        if scope is Global {
            1
        } else {
            0
        }
    } else {
        match scope {
            CommandScope::Global => 0,
            CommandScope::Guild(g) => count_of(gids, g),
        }
    }
}

/// The bucket of `scope` over the first `n` commands of `s`.
pub open spec fn bucket_upto<H>(s: Seq<InteractionCommand<H>>, scope: CommandScope, n: int) -> Seq<
    usize,
>
    decreases n,
{
    if n <= 0 {
        Seq::empty()
    } else {
        bucket_upto(s, scope, n - 1) + Seq::new(
            targets(s[n - 1].guild_ids, scope),
            |_j: int| (n - 1) as usize,
        )
    }
}

/// The positions of the commands registered in `scope`, in registry order.
pub open spec fn bucket<H>(s: Seq<InteractionCommand<H>>, scope: CommandScope) -> Seq<usize> {
    bucket_upto(s, scope, s.len() as int)
}

proof fn lemma_count_step(s: Seq<u64>, j: int, g: u64)
    requires
        0 <= j < s.len(),
    ensures
        count_of(s.take(j + 1), g) == count_of(s.take(j), g) + if s[j] == g {
            1nat
        } else {
            0nat
        },
{
    assert(s.take(j + 1).drop_last() =~= s.take(j));
}

proof fn lemma_count_of_member(s: Seq<u64>, k: int)
    requires
        0 <= k < s.len(),
    ensures
        count_of(s, s[k]) > 0,
    decreases s.len(),
{
    if k < s.len() - 1 {
        lemma_count_of_member(s.drop_last(), k);
    }
}

/// A command that targets a scope sits in that scope's bucket.
proof fn lemma_in_bucket<H>(s: Seq<InteractionCommand<H>>, scope: CommandScope, i: int, n: int)
    requires
        0 <= i < n <= s.len(),
        targets(s[i].guild_ids, scope) > 0,
    ensures
        bucket_upto(s, scope, n).contains(i as usize),
    decreases n,
{
    let prev = bucket_upto(s, scope, n - 1);
    let tail = Seq::new(targets(s[n - 1].guild_ids, scope), |_j: int| (n - 1) as usize);
    assert(bucket_upto(s, scope, n) == prev + tail);
    if i == n - 1 {
        assert((prev + tail)[prev.len() as int] == i as usize);
    } else {
        lemma_in_bucket(s, scope, i, n - 1);
        let k = choose|k: int| 0 <= k < prev.len() && prev[k] == i as usize;
        assert((prev + tail)[k] == i as usize);
    }
}

fn contains_scope(scopes: &Vec<CommandScope>, scope: CommandScope) -> (r: bool)
    ensures
        r == scopes@.contains(scope),
{
    let mut i: usize = 0;
    while i < scopes.len()
        invariant
            i <= scopes.len(),
            forall|j: int| 0 <= j < i ==> scopes@[j] != scope,
        decreases scopes.len() - i,
    {
        if scopes[i] == scope {
            assert(scopes@[i as int] == scope);
            return true;
        }
        i = i + 1;
    }
    false
}

/// No scope occurs twice.
pub open spec fn distinct_scopes(s: Seq<CommandScope>) -> bool {
    forall|a: int, b: int| 0 <= a < s.len() && 0 <= b < s.len() && a != b ==> s[a] != s[b]
}

fn push_scope(scopes: &mut Vec<CommandScope>, scope: CommandScope)
    requires
        distinct_scopes(old(scopes)@),
    ensures
        distinct_scopes(final(scopes)@),
        forall|x: CommandScope| final(scopes)@.contains(x) <==> (old(scopes)@.contains(x) || x == scope),
{
    if !contains_scope(scopes, scope) {
        let ghost before = scopes@;
        scopes.push(scope);
        proof {
            assert forall|x: CommandScope| scopes@.contains(x) <==> (before.contains(x) || x == scope) by {
                if before.contains(x) {
                    let k = choose|k: int| 0 <= k < before.len() && before[k] == x;
                    assert(scopes@[k] == x);
                }
                if x == scope {
                    assert(scopes@[before.len() as int] == x);
                }
                if scopes@.contains(x) && x != scope {
                    let k = choose|k: int| 0 <= k < scopes@.len() && scopes@[k] == x;
                    assert(k < before.len());
                    assert(before[k] == x);
                }
            }
        }
    }
}

impl<H> AppCommandMap<H> {
    /// The scopes some command is registered in, each once.
    fn target_scopes(&self) -> (r: Vec<CommandScope>)
        ensures
            distinct_scopes(r@),
            forall|x: CommandScope| r@.contains(x) <==> bucket(self.commands(), x).len() > 0,
    {
        let ghost s = self.entries@;
        let mut scopes: Vec<CommandScope> = Vec::new();
        let mut i: usize = 0;
        while i < self.entries.len()
            invariant
                i <= self.entries.len(),
                s == self.entries@,
                distinct_scopes(scopes@),
                forall|x: CommandScope| scopes@.contains(x) <==> bucket_upto(s, x, i as int).len() > 0,
            decreases self.entries.len() - i,
        {
            let ghost before = scopes@;
            assert(forall|x: CommandScope| before.contains(x) <==> bucket_upto(s, x, i as int).len() > 0);
            let guild_ids = &self.entries[i].guild_ids;
            let none_listed = match guild_ids {
                None => true,
                Some(v) => v.len() == 0,
            };
            if none_listed {
                push_scope(&mut scopes, CommandScope::Global);
                proof {
                    assert forall|x: CommandScope| scopes@.contains(x) <==> bucket_upto(s, x, i + 1).len() > 0 by {
                        assert(items_of(s[i as int].guild_ids).len() == 0);
                    }
                }
            } else {
                let v = guild_ids.as_ref().unwrap();
                let mut j: usize = 0;
                while j < v.len()
                    invariant
                        j <= v.len(),
                        s == self.entries@,
                        i < s.len(),
                        s[i as int].guild_ids == Some(*v),
                        v@.len() > 0,
                        distinct_scopes(scopes@),
                        forall|x: CommandScope| #[trigger] scopes@.contains(x) <==> (before.contains(x) || (x is Guild && count_of(v@.take(j as int), x->Guild_0) > 0)),
                    decreases v.len() - j,
                {
                    let g = v[j];
                    let ghost mid = scopes@;
                    push_scope(&mut scopes, CommandScope::Guild(g));
                    proof {
                        assert forall|x: CommandScope| #[trigger] scopes@.contains(x) <==> (before.contains(x) || (x is Guild && count_of(v@.take(j + 1), x->Guild_0) > 0)) by {
                            assert(mid.contains(x) <==> (before.contains(x) || (x is Guild && count_of(v@.take(j as int), x->Guild_0) > 0)));
                            if x is Guild {
                                lemma_count_step(v@, j as int, x->Guild_0);
                            }
                        }
                    }
                    j = j + 1;
                }
                proof {
                    assert(v@.take(v@.len() as int) =~= v@);
                    assert forall|x: CommandScope| scopes@.contains(x) <==> bucket_upto(s, x, i + 1).len() > 0 by {
                        assert(items_of(s[i as int].guild_ids) == v@);
                        assert(bucket_upto(s, x, i + 1).len() == bucket_upto(s, x, i as int).len() + targets(s[i as int].guild_ids, x));
                        assert(before.contains(x) <==> bucket_upto(s, x, i as int).len() > 0);
                    }
                }
            }
            i = i + 1;
        }
        scopes
    }

    /// The positions of the commands registered in `scope`.
    fn bucket_for(&self, scope: CommandScope) -> (r: Vec<usize>)
        ensures
            r@ == bucket(self.commands(), scope),
    {
        let ghost s = self.entries@;
        let mut out: Vec<usize> = Vec::new();
        let mut i: usize = 0;
        while i < self.entries.len()
            invariant
                i <= self.entries.len(),
                s == self.entries@,
                out@ == bucket_upto(s, scope, i as int),
            decreases self.entries.len() - i,
        {
            let ghost before = out@;
            let guild_ids = &self.entries[i].guild_ids;
            let none_listed = match guild_ids {
                None => true,
                Some(v) => v.len() == 0,
            };
            if none_listed {
                if scope == CommandScope::Global {
                    out.push(i);
                }
                proof {
                    assert(items_of(s[i as int].guild_ids).len() == 0);
                    assert(out@ =~= bucket_upto(s, scope, i + 1));
                }
            } else {
                let v = guild_ids.as_ref().unwrap();
                match scope {
                    CommandScope::Global => {
                        proof {
                            assert(out@ =~= bucket_upto(s, scope, i + 1));
                        }
                    },
                    CommandScope::Guild(g) => {
                        let mut j: usize = 0;
                        while j < v.len()
                            invariant
                                j <= v.len(),
                                s == self.entries@,
                                i < s.len(),
                                before == bucket_upto(s, scope, i as int),
                                out@ == before + Seq::new(count_of(v@.take(j as int), g), |_k: int| i as usize),
                            decreases v.len() - j,
                        {
                            proof {
                                lemma_count_step(v@, j as int, g);
                            }
                            if v[j] == g {
                                out.push(i);
                            }
                            proof {
                                assert(out@ =~= before + Seq::new(count_of(v@.take(j + 1), g), |_k: int| i as usize));
                            }
                            j = j + 1;
                        }
                        proof {
                            assert(v@.take(v@.len() as int) =~= v@);
                            assert(items_of(s[i as int].guild_ids) == v@);
                            assert(out@ =~= bucket_upto(s, scope, i + 1));
                        }
                    },
                }
            }
            i = i + 1;
        }
        out
    }

    /// The commands grouped by the scope they are registered in: one bucket
    /// per scope that has any, each holding the positions of its commands in
    /// registry order.
    pub fn buckets(&self) -> (r: Vec<CommandBucket>)
        ensures
            forall|a: int, b: int|
                0 <= a < r@.len() && 0 <= b < r@.len() && a != b ==> (#[trigger] r@[a]).scope
                    != (#[trigger] r@[b]).scope,
            forall|a: int| 0 <= a < r@.len() ==> (#[trigger] r@[a]).commands@ == bucket(self.commands(), r@[a].scope),
            forall|x: CommandScope|
                bucket(self.commands(), x).len() > 0 <==> exists|a: int| 0 <= a < r@.len() && (#[trigger] r@[a]).scope == x,
    {
        let scopes = self.target_scopes();
        let mut buckets: Vec<CommandBucket> = Vec::new();
        let mut k: usize = 0;
        while k < scopes.len()
            invariant
                k <= scopes.len(),
                distinct_scopes(scopes@),
                forall|x: CommandScope| scopes@.contains(x) <==> bucket(self.commands(), x).len() > 0,
                buckets@.len() == k,
                forall|a: int| 0 <= a < k ==> (#[trigger] buckets@[a]).scope == scopes@[a],
                forall|a: int| 0 <= a < k ==> (#[trigger] buckets@[a]).commands@ == bucket(self.commands(), buckets@[a].scope),
            decreases scopes.len() - k,
        {
            let scope = scopes[k];
            let commands = self.bucket_for(scope);
            buckets.push(CommandBucket { scope, commands });
            k = k + 1;
        }
        proof {
            assert forall|x: CommandScope|
                bucket(self.commands(), x).len() > 0 <==> exists|a: int| 0 <= a < buckets@.len() && (#[trigger] buckets@[a]).scope == x by {
                if bucket(self.commands(), x).len() > 0 {
                    assert(scopes@.contains(x));
                    let a = choose|a: int| 0 <= a < scopes@.len() && scopes@[a] == x;
                    assert(buckets@[a].scope == x);
                }
                if exists|a: int| 0 <= a < buckets@.len() && (#[trigger] buckets@[a]).scope == x {
                    let a = choose|a: int| 0 <= a < buckets@.len() && (#[trigger] buckets@[a]).scope == x;
                    assert(scopes@[a] == x);
                    assert(scopes@.contains(x));
                }
            }
        }
        buckets
    }
}

/// Path, below the API root, of the bulk replace call for the commands of
/// `scope` of application `application_id`.
pub fn command_scope_path(application_id: &Snowflake, scope: CommandScope) -> (r: String)
    ensures
        r@ == "/applications/"@ + snowflake_text(*application_id) + "/"@ + match scope {
            CommandScope::Global => "commands"@,
            CommandScope::Guild(g) => "guilds/"@ + decimal_digits(g as nat) + "/commands"@,
        },
{
    let mut path = "/applications/".to_owned();
    let id = application_id.to_display_string();
    path.append(id.as_str());
    path.append("/");
    match scope {
        CommandScope::Global => {
            path.append("commands");
        },
        CommandScope::Guild(guild_id) => {
            path.append("guilds/");
            let g = u64_to_decimal(guild_id);
            path.append(g.as_str());
            path.append("/commands");
        },
    }
    path
}

/// A command registered in no particular guild goes into the global bucket,
/// and is sent with its description exactly when it is a chat-input command.
pub proof fn lemma_global_command_synced<H>(
    m: AppCommandMap<H>,
    kind: ApplicationCommandType,
    name: Seq<char>,
)
    requires
        m.wf(),
        m@.contains_key((kind, name)),
        items_of(m@[(kind, name)].guild_ids).len() == 0,
    ensures
        exists|i: int|
            0 <= i < m.commands().len() && m.commands()[i] == m@[(kind, name)] && bucket(
                m.commands(),
                CommandScope::Global,
            ).contains(i as usize),
        synced_description(m@[(kind, name)].app_command) == if kind
            == ApplicationCommandType::ChatInput {
            m@[(kind, name)].app_command.description
        } else {
            None
        },
{
    let s = m.commands();
    let i = index_of(s, (kind, name));
    assert(0 <= i < s.len() && key_of(s[i]) == (kind, name));
    lemma_in_bucket(s, CommandScope::Global, i, s.len() as int);
}

/// A command registered for a guild goes into that guild's bucket and not
/// into the global one.
pub proof fn lemma_guild_command_synced<H>(
    m: AppCommandMap<H>,
    kind: ApplicationCommandType,
    name: Seq<char>,
    guild: u64,
)
    requires
        m.wf(),
        m@.contains_key((kind, name)),
        items_of(m@[(kind, name)].guild_ids).contains(guild),
    ensures
        exists|i: int|
            0 <= i < m.commands().len() && m.commands()[i] == m@[(kind, name)] && bucket(
                m.commands(),
                CommandScope::Guild(guild),
            ).contains(i as usize) && !bucket(m.commands(), CommandScope::Global).contains(
                i as usize,
            ),
{
    let s = m.commands();
    let i = index_of(s, (kind, name));
    assert(0 <= i < s.len() && key_of(s[i]) == (kind, name));
    let gids = items_of(s[i].guild_ids);
    let k = choose|k: int| 0 <= k < gids.len() && gids[k] == guild;
    lemma_count_of_member(gids, k);
    lemma_in_bucket(s, CommandScope::Guild(guild), i, s.len() as int);
    assert(s.len() == m.entries.len());
    lemma_not_in_bucket(s, CommandScope::Global, i, s.len() as int);
}

/// A command that does not target a scope is not in that scope's bucket.
proof fn lemma_not_in_bucket<H>(s: Seq<InteractionCommand<H>>, scope: CommandScope, i: int, n: int)
    requires
        0 <= i < s.len() <= usize::MAX,
        0 <= n <= s.len(),
        targets(s[i].guild_ids, scope) == 0,
    ensures
        !bucket_upto(s, scope, n).contains(i as usize),
    decreases n,
{
    if n > 0 {
        lemma_not_in_bucket(s, scope, i, n - 1);
        let prev = bucket_upto(s, scope, n - 1);
        let tail = Seq::new(targets(s[n - 1].guild_ids, scope), |_j: int| (n - 1) as usize);
        assert(bucket_upto(s, scope, n) == prev + tail);
        if (prev + tail).contains(i as usize) {
            let k = choose|k: int| 0 <= k < (prev + tail).len() && (prev + tail)[k] == i as usize;
            if k < prev.len() {
                assert(prev[k] == i as usize);
            } else {
                assert(tail[k - prev.len()] == (n - 1) as usize);
                assert(n - 1 == i);
            }
        }
    }
}

/// What routing an interaction-create body to the command registry gives:
/// `None` when nothing is to run, else the handler or the reason there is
/// none.
pub open spec fn interaction_outcome<H>(
    m: AppCommandMap<H>,
    data: Option<GatewayEvent>,
) -> Option<Result<H, DiscordError>> {
    match data {
        Some(GatewayEvent::InteractionCreate(interaction)) => match interaction.data {
            None => None,
            Some(d) => if interaction.interaction_type != InteractionType::ApplicationCommand {
                Some(Err(DiscordError::UnsupportedInteraction))
            } else if m@.contains_key((d.interaction_data_type, d.name@)) {
                Some(Ok(m@[(d.interaction_data_type, d.name@)].function))
            } else {
                Some(Err(DiscordError::UnregisteredCommand))
            },
        },
        _ => Some(Err(DiscordError::UnexpectedPayload)),
    }
}

/// The same outcome, with the handler borrowed.
pub open spec fn matches_outcome<H>(r: Option<Result<&H, DiscordError>>, o: Option<Result<H, DiscordError>>) -> bool {
    match (r, o) {
        (None, None) => true,
        (Some(Ok(h)), Some(Ok(g))) => *h == g,
        (Some(Err(e)), Some(Err(f))) => e == f,
        _ => false,
    }
}

impl<H> AppCommandMap<H> {
    /// Routes the body of an interaction-create envelope: the handler of the
    /// command it invokes, nothing when it carries no command data, or why
    /// it cannot be routed.
    pub fn handle_interaction(&self, interaction: &Option<GatewayEvent>) -> (r: Option<
        Result<&H, DiscordError>,
    >)
        requires
            self.wf(),
        ensures
            matches_outcome(r, interaction_outcome(*self, *interaction)),
    {
        match interaction {
            Some(GatewayEvent::InteractionCreate(interaction)) => {
                match self.handle_app_command(interaction) {
                    Ok(None) => None,
                    Ok(Some(h)) => Some(Ok(h)),
                    Err(e) => Some(Err(e)),
                }
            },
            _ => Some(Err(DiscordError::UnexpectedPayload)),
        }
    }
}

} // verus!

//! Data objects carried by the gateway and the REST interface: users, guilds,
//! messages, embeds, interactions and the event tags that name them.

use std::collections::HashMap;
use vstd::prelude::*;

use crate::decimal::{decimal_digits, u64_to_decimal};

verus! {

/// An id: the service sends most as integers, some as strings.
#[derive(Clone, Debug, PartialEq, Eq, Hash)]
pub enum Snowflake {
    Integer(u64),
    String(String),
}

/// A value a client attaches to a message to recognise it when it comes back.
#[derive(Clone, Debug)]
pub enum Nonce {
    Integer(u64),
    String(String),
}

/// Whether a permission overwrite applies to a role or to a member.
#[derive(Clone, Copy, Debug, PartialEq, Eq, Hash, Structural)]
pub enum PermissionOverwriteType {
    Role,
    Member,
}

/// A user's membership of a thread.
#[derive(Clone, Debug)]
pub struct ThreadMember {
    pub id: Option<Snowflake>,
    pub user_id: Option<Snowflake>,
    pub join_timestamp: String,
    pub flags: u64,
}

/// Permissions granted or denied to one role or member in a channel.
#[derive(Clone, Debug)]
pub struct PermissionOverwrite {
    pub id: Snowflake,
    pub permission_overwrite_type: PermissionOverwriteType,
    pub allow: String,
    pub deny: String,
}

/// The threads of a guild, sent when the client gains access to a channel.
#[derive(Debug)]
pub struct ThreadListSyncEvent {
    pub guild_id: Option<Snowflake>,
    pub channel_ids: Option<Vec<Snowflake>>,
    pub threads: Vec<Channel>,
    pub members: Vec<ThreadMember>,
}

/// A user banned from or unbanned in a guild.
#[derive(Debug)]
pub struct GuildBanEvent {
    pub guild_id: Option<Snowflake>,
    pub user: User,
}

/// The new emoji list of a guild.
#[derive(Debug)]
pub struct GuildEmojisUpdateEvent {
    pub guild_id: Option<Snowflake>,
    pub emojis: Vec<Emoji>,
}

/// The new sticker list of a guild.
#[derive(Debug)]
pub struct GuildStickersUpdateEvent {
    pub guild_id: Option<Snowflake>,
    pub emojis: Vec<Emoji>,
}

/// One chunk of the members of a guild, in answer to a request.
#[derive(Debug)]
pub struct GuildMembersChunkEvent {
    pub guild_id: Option<Snowflake>,
    pub members: Vec<GuildMember>,
    pub chunk_index: u64,
    pub chunk_count: u64,
    pub not_found: Option<Vec<String>>,
    pub presences: Option<Vec<PresenceUpdate>>,
    pub nonce: Nonce,
}

/// A role created or updated in a guild.
#[derive(Clone, Debug)]
pub struct GuildRoleEvent {
    pub guild_id: Option<Snowflake>,
    pub role: Role,
}

/// A role deleted from a guild.
#[derive(Clone, Debug)]
pub struct GuildRoleDeleteEvent {
    pub guild_id: Option<Snowflake>,
    pub role_id: Snowflake,
}

/// The account behind an integration.
#[derive(Clone, Debug)]
pub struct IntegrationAccount {
    pub id: String,
    pub name: String,
}

/// The application behind an integration.
#[derive(Debug)]
pub struct IntegrationApplication {
    pub id: Snowflake,
    pub name: String,
    pub icon: Option<String>,
    pub description: String,
    pub summary: String,
    pub bot: Option<User>,
}

/// A guild integration.
#[derive(Debug)]
pub struct Integration {
    pub id: Snowflake,
    pub name: String,
    pub integration_type: String,
    pub enabled: bool,
    pub syncing: Option<bool>,
    pub role_id: Option<Snowflake>,
    pub enable_emoticons: Option<bool>,
    pub expire_behaviour: u64,
    pub expire_grace_period: u64,
    pub user: Option<User>,
    pub account: IntegrationAccount,
    pub synced_at: Option<String>, 
    pub subscriber_count: Option<u64>,
    pub revoked: Option<bool>,
    pub application: IntegrationApplication,
    pub guild_id: Option<Snowflake> 
}

/// An integration removed from a guild.
#[derive(Clone, Debug)]
pub struct IntegrationDeleteEvent {
    pub id: Snowflake,
    pub guild_id: Option<Snowflake>,
    pub application_id: Option<Snowflake>,
}

/// The stage an invite leads to.
#[derive(Debug)]
pub struct InviteStageInstance {
    pub members: Vec<GuildMember>,
    pub participant_count: u64,
    pub speaker_count: u64,
    pub topic: String
}

/// The users, members, roles, channels and messages an interaction refers to, by id.
#[derive(Debug)]
pub struct ResolvedData {
    pub users: Option<HashMap<Snowflake, User>>,
    pub members: Option<HashMap<Snowflake, GuildMember>>,
    pub roles: Option<HashMap<Snowflake, Role>>,
    pub channels: Option<HashMap<Snowflake, Channel>>,
    pub messages: Option<HashMap<Snowflake, Message>>,
}

/// The kind of an application command.
#[derive(Clone, Copy, Debug, PartialEq, Eq, Hash, Structural)]
pub enum ApplicationCommandType {
    ChatInput,
    User,
    Message,
}

/// The type of a command option.
#[derive(Clone, Copy, Debug, PartialEq, Eq, Hash, Structural)]
pub enum AppCommandOptionType {
    SubCommand,
    SubCommandGroup,
    String,
    Integer,
    Boolean,
    User,
    Channel,
    Role,
    Mentionable,
    Number,
}

/// The value of an option: a string, an integer, or a number held as its IEEE 754 binary64 bits.
#[derive(Clone, Debug)]
pub enum AppCommandValue {
    String(String),
    Integer(i64),
    Double(u64),
}

/// An option as filled in by the user who invoked a command.
#[derive(Debug)]
pub struct AppMessageInteractionDataOption {
    pub name: String,
    pub app_message_interaction_data_type: AppCommandOptionType,
    pub value: Option<AppCommandValue>,
    pub options: Option<Vec<AppMessageInteractionDataOption>>,
}

/// What an interaction invokes: the command's id, name and kind, and its options.
#[derive(Debug)]
pub struct InteractionData {
    pub id: Snowflake,
    pub name: String,
    pub interaction_data_type: ApplicationCommandType,
    pub resolved: Option<ResolvedData>,
    pub options: Option<Vec<AppMessageInteractionDataOption>>,
    pub custom_id: Option<String>,
    pub component_type: Option<u64>,
    pub values: Option<Vec<SelectOption>>,
    pub target_id: Option<Snowflake>,
}

/// The kind of an interaction.
#[derive(Clone, Copy, Debug, PartialEq, Eq, Hash, Structural)]
pub enum InteractionType {
    Ping,
    ApplicationCommand,
    MessageComponent,
}

/// An inbound invocation of a command or component, with the token to answer it.
#[derive(Debug)]
pub struct Interaction {
    pub id: Snowflake,
    pub application_id: Snowflake,
    pub interaction_type: InteractionType,
    pub data: Option<InteractionData>,
    pub guild_id: Option<Snowflake>,
    pub channel_id: Option<Snowflake>,
    pub member: Option<GuildMember>, 
    pub user: Option<User>, 
    pub token: String,
    pub version: u64,
    pub message: Option<Message>
}

/// An invite created in a channel.
#[derive(Debug)]
pub struct InviteCreateEvent {
    pub channel_id: Snowflake,
    pub code: String,
    pub created_at: String, 
    pub guild_id: Option<Snowflake>,
    pub inviter: Option<User>,
    pub max_age: u64,
    pub max_uses: u64,
    pub target_type: Option<u64>,
    pub target_user: Option<User>,
    pub target_application: Option<Application>,
    pub temporary: bool,
    pub uses: u64
}

/// An invite deleted from a channel.
#[derive(Clone, Debug)]
pub struct InviteDeleteEvent {
    pub channel_id: Snowflake,
    pub guild_id: Option<Snowflake>,
    pub code: String,
}

/// An event that names nothing but a guild.
#[derive(Clone, Debug)]
pub struct GuildIdEvent {
    pub guild_id: Option<Snowflake>,
}

/// A member who left or was removed from a guild.
#[derive(Debug)]
pub struct GuildMemberRemoveEvent {
    pub guild_id: Option<Snowflake>,
    pub user: User,
}

/// A member whose guild profile changed.
#[derive(Debug)]
pub struct GuildMemberUpdateEvent {
    pub guild_id: Option<Snowflake>,
    pub roles: Vec<Snowflake>,
    pub user: User,
    pub nick: Option<String>,
    pub avatar: Option<String>,
    pub joined_at: Option<String>,
    pub premium_since: Option<String>,
    pub deaf: Option<bool>,
    pub mute: Option<bool>,
    pub pending: Option<bool>,
}

/// Users added to or removed from a thread.
#[derive(Clone, Debug)]
pub struct ThreadMembersUpdateEvent {
    pub id: Snowflake,
    pub guild_id: Option<Snowflake>,
    pub member_count: u64,
    pub added_members: Option<Vec<ThreadMember>>,
    pub removed_member_ids: Option<Vec<Snowflake>>,
}

/// The archive and lock state of a thread.
#[derive(Clone, Debug)]
pub struct ThreadMetadata {
    pub archived: bool,
    pub auto_archive_duration: u64,
    pub archive_timestamp: String,
    pub locked: bool,
    pub invitable: Option<bool>,
}

/// The type of a channel.
#[derive(Clone, Copy, Debug, PartialEq, Eq, Hash, Structural)]
pub enum ChannelType {
    GuildText,
    Dm,
    GuildVoice,
    GroupDm,
    GuildCategory,
    GuildNews,
    GuildStore,
    GuildNewsThread,
    GuildPublicThread,
    GuildPrivateThread,
    GuildStageVoice
}

/// A guild channel, direct message channel or thread.
#[derive(Debug)]
pub struct Channel {
    pub id: Snowflake,
    pub channel_type: Option<ChannelType>,
    pub guild_id: Option<Snowflake>,
    pub position: Option<u64>,
    pub permission_overwrite: Option<Vec<PermissionOverwrite>>,
    pub name: Option<String>,
    pub topic: Option<String>,
    pub nsfw: Option<bool>,
    pub last_message_id: Option<Snowflake>,
    pub bitrate: Option<u64>,
    pub user_limit: Option<u64>,
    pub rate_limit_per_user: Option<u64>,
    pub recipients: Option<Vec<User>>,
    pub icon: Option<String>,
    pub owner_id: Option<Snowflake>,
    pub application_id: Option<Snowflake>,
    pub parent_id: Option<Snowflake>,
    pub last_pin_timestamp: Option<String>,
    pub rtc_region: Option<String>,
    pub video_quality_mode: Option<u64>,
    pub message_count: Option<u64>,
    pub member_count: Option<u64>,
    pub thread_metadata: Option<ThreadMetadata>,
    pub member: Option<ThreadMember>,
    pub default_auto_archive_duration: Option<u64>,
    pub permissions: Option<String>,
}

/// The premium subscription of a user.
#[derive(Clone, Copy, Debug, PartialEq, Eq, Hash, Structural)]
pub enum NitroType {
    NoNitro,
    NitroClassic,
    Nitro,
}

/// A user account.
#[derive(Debug)]
pub struct User {
    pub id: Snowflake,
    pub username:  Option<String>,
    pub discriminator:  Option<String>,
    pub avatar: Option<String>,
    pub bot: Option<bool>,
    pub system: Option<bool>,
    pub mfa_enabled: Option<bool>,
    pub banner: Option<String>,
    pub accent_colour: Option<u64>,
    pub locale: Option<String>,
    pub verified: Option<bool>,
    pub email: Option<String>,
    pub flags: Option<u64>,
    pub premium_type: Option<NitroType>,
    pub public_flags: Option<u64>,
    pub member: Option<Box<GuildMember>>,
}

/// A user's membership of a guild.
#[derive(Debug)]
pub struct GuildMember {
    pub user: Option<User>,
    pub nick: Option<String>,
    pub avatar: Option<String>,
    pub roles: Vec<String>,
    pub joined_at: String,
    pub premium_since: Option<String>,
    pub deaf: Option<bool>,
    pub mute: Option<bool>,
    pub pending: Option<bool>,
    pub permissions: Option<String>,
    pub guild_id: Option<Snowflake>, 
}

/// A file attached to a message.
#[derive(Clone, Debug)]
pub struct Attachment {
    pub id: Snowflake,
    pub filename: String,
    pub content_type: Option<String>,
    pub size: u64,
    pub url: String,
    pub proxy_url: String,
    pub height: Option<u64>,
    pub width: Option<u64>,
    pub ephemeral: Option<bool>,
}

/// The footer of an embed.
#[derive(Clone, Debug)]
pub struct EmbedFooter {
    pub text: String,
    pub icon_url: Option<String>,
    pub proxy_icon_url: Option<bool>,
}

/// An image, thumbnail or video shown in an embed.
#[derive(Clone, Debug)]
pub struct EmbedAttachment {
    pub url: String,
    pub proxy_url: Option<String>,
    pub height: Option<u64>,
    pub width: Option<u64>,
}

/// The provider named in an embed.
#[derive(Clone, Debug)]
pub struct EmbedProvider {
    pub name: Option<String>,
    pub url: Option<String>,
}

/// The author shown in an embed.
#[derive(Clone, Debug)]
pub struct EmbedAuthor {
    pub name: String,
    pub proxy_icon_url: Option<String>,
    pub url: Option<String>,
    pub icon_url: Option<String>,
}

/// A name and value shown in an embed.
#[derive(Clone, Debug)]
pub struct EmbedField {
    pub name: String,
    pub value: String,
    pub inline: Option<bool>,
}

/// Rich content attached to a message.
#[derive(Clone, Debug)]
pub struct Embed {
    pub title: Option<String>,
    pub embed_type: Option<String>,
    pub description: Option<String>,
    pub url: Option<String>,
    pub timestamp: Option<String>,
    pub colour: Option<u64>, 
    pub footer: Option<EmbedFooter>,
    pub image: Option<EmbedAttachment>,
    pub thumbnail: Option<EmbedAttachment>,
    pub video: Option<EmbedAttachment>,
    pub provider: Option<EmbedProvider>,
    pub author: Option<EmbedAuthor>,
    pub fields: Option<Vec<EmbedField>>,
}

/// A custom or unicode emoji.
#[derive(Debug)]
pub struct Emoji {
    pub id: Option<Snowflake>,
    pub name: Option<String>,
    pub roles: Option<Vec<String>>,
    pub user: Option<User>,
    pub require_colons: Option<bool>,
    pub managed: Option<bool>,
    pub animated: Option<bool>,
    pub available: Option<bool>,
}

/// The reactions of one emoji on a message.
#[derive(Debug)]
pub struct Reaction {
    pub count: u64,
    pub me: bool,
    pub emoji: Emoji,
}

/// The kind of a rich presence activity attached to a message.
#[derive(Clone, Copy, Debug, PartialEq, Eq, Hash, Structural)]
pub enum MessageActivityType {
    Join,
    Spectate,
    Listen,
    JoinRequest,
}

/// A rich presence activity attached to a message.
#[derive(Clone, Debug)]
pub struct MessageActivity {
    pub message_activity_type: MessageActivityType,
    pub party_id: Option<String>,
}

/// A channel mentioned in a message.
#[derive(Clone, Debug)]
pub struct ChannelMention {
    pub id: Snowflake,
    pub guild_id: Option<Snowflake>,
    pub channel_type: ChannelType,
    pub name: String,
}

/// A member of a team that owns an application.
#[derive(Debug)]
pub struct TeamMember {
    pub membership_state: u64,
    pub permissions: Vec<String>,
    pub team_id: Snowflake,
    pub user: User,
}

/// A team that owns an application.
#[derive(Debug)]
pub struct Team {
    pub icon: Option<String>,
    pub id: Snowflake,
    pub owner_user_id: Snowflake,
    pub members: Vec<TeamMember>,
    pub name: String,
}

/// One choice of a select menu.
#[derive(Debug)]
pub struct SelectOption {
    pub label: String,
    pub value: String,
    pub description: Option<String>,
    pub emoji: Option<Emoji>,
    pub default: Option<bool>,
}

/// The type of a message component.
#[derive(Clone, Copy, Debug, PartialEq, Eq, Hash, Structural)]
pub enum ComponentType {
    ActionRow,
    Button,
    SelectMenu,
}

/// An interactive component of a message: a row, a button or a select menu.
#[derive(Debug)]
pub struct Component {
    pub component_type: ComponentType,
    pub custom_id: Option<String>,
    pub disabled: Option<bool>,
    pub style: Option<u64>,
    pub label: Option<String>,
    pub emoji: Option<Emoji>,
    pub url: Option<String>,
    pub options: Vec<SelectOption>,
    pub placeholder: Option<String>,
    pub min_values: Option<u64>,
    pub max_values: Option<u64>,
    pub components: Option<Vec<Component>>,
}

/// An application.
#[derive(Debug)]
pub struct Application {
    pub id: Snowflake,
    pub name: String,
    pub icon: Option<String>,
    pub description: String,
    pub rpc_origins: Option<Vec<String>>,
    pub bot_public: bool,
    pub bot_require_code_grant: bool,
    pub terms_of_service_url: Option<String>,
    pub privacy_policy_url: Option<String>,
    pub owner: Option<User>,
    pub summary: String,
    pub verify_key: String,
    pub team: Option<Team>,
    pub guild_id: Option<Snowflake>,
    pub primary_sku_id: Option<Snowflake>,
    pub slug: Option<String>,
    pub cover_image: Option<String>,
    pub flags: u64,
}

/// The interaction a message answers.
#[derive(Debug)]
pub struct MessageInteraction {
    pub id: Snowflake,
    pub message_interaction_type: InteractionType,
    pub name: String,
    pub user: User,
}

/// The message a message replies to or crossposts.
#[derive(Clone, Debug)]
pub struct MessageReference {
    pub message_id: Option<Snowflake>,
    pub channel_id: Option<Snowflake>,
    pub guild_id: Option<Snowflake>,
    pub fail_if_not_exists: Option<bool>,
}

/// A sticker sent with a message.
#[derive(Clone, Debug)]
pub struct StickerItem {
    pub id: Snowflake,
    pub name: String,
    pub format_type: u64,
}

/// The type of a message.
#[derive(Clone, Copy, Debug, PartialEq, Eq, Hash, Structural)]
pub enum MessageType {
    Default,
    RecipientAdd,
    RecipientRemove,
    Call,
    ChannelNameChange,
    ChannelIconChange,
    ChannelPinnedMessage,
    GuildMemberJoin,
    UserPremiumGuildSubscription,
    UserPremiumGuildSubscriptionT1,
    UserPremiumGuildSubscriptionT2,
    UserPremiumGuildSubscriptionT3,
    ChannelFollowAdd,
    GuildDiscoveryDisqualified,
    GuildDiscoveryRequalified,
    GuildDiscoveryGracePeriodInitialWarning,
    GuildDiscoveryGracePeriodFinalWarning,
    ThreadCreated,
    Reply,
    ChatInputCommand,
    ThreadStarterMessage,
    GuildInviteReminder,
    ContextMenuCommand,
}

/// A message in a channel.
#[derive(Debug)]
pub struct Message {
    pub id: Snowflake,
    pub channel_id: Snowflake,
    pub guild_id: Option<Snowflake>,
    pub author: User,
    pub member: Option<GuildMember>,
    pub content: String,
    pub timestamp: String,
    pub edited_timestamp: Option<String>,
    pub tts: bool,
    pub mention_everyone: bool,
    pub mentions: Vec<User>,
    pub mention_roles: Vec<Snowflake>,
    pub mention_channels: Option<Vec<ChannelMention>>,
    pub attachments: Vec<Attachment>,
    pub embeds: Vec<Embed>,
    pub reactions: Option<Vec<Reaction>>,
    pub nonce: Option<Nonce>,
    pub pinned: bool,
    pub webhook_id: Option<Snowflake>,
    pub message_type: MessageType,
    pub activity: Option<MessageActivity>,
    pub application: Option<Application>,
    pub application_id: Option<Snowflake>,
    pub message_reference: Option<MessageReference>,
    pub flags: Option<u64>,
    pub reference_message: Option<Box<Message>>,
    pub interaction: Option<MessageInteraction>,
    pub thread: Option<Channel>,
    pub components: Option<Vec<Component>>,
    pub sticker_items: Option<Vec<StickerItem>>,
}

/// What a role is managed by.
#[derive(Clone, Debug)]
pub struct RoleTag {
    pub bot_id: Option<Snowflake>,
    pub integration_id: Option<Snowflake>,
    pub premium_subscriber: Option<Option<bool>>,
}

/// A guild role.
#[derive(Clone, Debug)]
pub struct Role {
    pub id: Snowflake,
    pub name: String,
    pub colour: u64,
    pub hoist: bool,
    pub icon: Option<String>,
    pub unicode_emoji: Option<String>,
    pub position: u64,
    pub permissions: u64,
    pub managed: bool,
    pub mentionable: bool,
    pub tags: Option<RoleTag>,
}

/// When an activity started or ends.
#[derive(Clone, Debug)]
pub struct ActivityTimestamp {
    pub start: Option<u64>,
    pub end: Option<u64>,
}

/// The party of an activity.
#[derive(Clone, Debug)]
pub struct ActivityParty {
    pub id: Option<String>,
    pub size: Option<Vec<u64>>,
}

/// The images of an activity.
#[derive(Clone, Debug)]
pub struct ActivityAsset {
    pub large_image: Option<String>,
    pub large_text: Option<String>,
    pub small_image: Option<String>,
    pub small_text: Option<String>,
}

/// The secrets for joining or spectating an activity.
#[derive(Clone, Debug)]
pub struct ActivitySecret {
    pub join: Option<String>,
    pub spectate: Option<String>,
    pub activity_secret_match: Option<String>,
}

/// The emoji of a custom status.
#[derive(Clone, Debug)]
pub struct ActivityEmoji {
    pub name: String,
    pub id: Option<Snowflake>,
    pub animated: Option<bool>,
}

/// A button shown with an activity.
#[derive(Clone, Debug)]
pub struct ActivityButton {
    pub label: String,
    pub url: String,
}

/// The kind of an activity.
#[derive(Clone, Copy, Debug, PartialEq, Eq, Hash, Structural)]
pub enum ActivityType {
    Game,
    Streaming,
    Listening,
    Watching,
    Custom,
    Competing,
}

/// What a user is doing.
#[derive(Clone, Debug)]
pub struct Activity {
    pub name: String,
    pub activity_type: ActivityType,
    pub url: Option<String>,
    pub created_at: u64,
    pub timestamps: Option<Vec<ActivityTimestamp>>,
    pub application_id: Option<Snowflake>,
    pub details: Option<String>,
    pub state: Option<String>,
    pub emoji: Option<ActivityEmoji>,
    pub party: Option<ActivityParty>,
    pub assets: Option<ActivityAsset>,
    pub secrets: Option<ActivitySecret>,
    pub instance: Option<bool>,
    pub flags: Option<u64>,
    pub buttons: Option<Vec<ActivityButton>>,
}

/// A user's status on each platform.
#[derive(Clone, Debug)]
pub struct ClientStatus {
    pub desktop: Option<String>,
    pub mobile: Option<String>,
    pub web: Option<String>,
}

/// A user's presence in a guild.
#[derive(Debug)]
pub struct PresenceUpdate {
    pub user: User,
    pub guild_id: Option<Snowflake>,
    pub status: String,
    pub activities: Vec<Activity>,
    pub client_status: ClientStatus,
}

/// A user's voice connection.
#[derive(Debug)]
pub struct VoiceState {
    pub guild_id: Option<Snowflake>,
    pub channel_id: Option<Snowflake>,
    pub user_id: Snowflake,
    pub member: Option<GuildMember>,
    pub session_id: String,
    pub deaf: bool,
    pub mute: bool,
    pub self_deaf: bool,
    pub self_mute: bool,
    pub self_stream: Option<bool>,
    pub self_video: bool,
    pub suppress: bool,
    pub request_to_speak_timestamp: Option<String>,
}

/// A live stage.
#[derive(Clone, Debug)]
pub struct StageInstance {
    pub id: Snowflake,
    pub guild_id: Option<Snowflake>,
    pub channel_id: Snowflake,
    pub topic: String,
    pub privacy_level: u64,
    pub discoverable_disabled: bool,
}

/// A channel shown on a guild's welcome screen.
#[derive(Clone, Debug)]
pub struct WelcomeScreenChannel {
    pub channel_id: Snowflake,
    pub description: String,
    pub emoji_id: Option<Snowflake>,
    pub emoji_name: Option<String>,
}

/// The welcome screen of a guild.
#[derive(Clone, Debug)]
pub struct WelcomeScreen {
    pub description: Option<String>,
    pub welcome_channels: Vec<WelcomeScreenChannel>,
}

/// Whether a sticker is a standard or a guild sticker.
#[derive(Clone, Copy, Debug, PartialEq, Eq, Hash, Structural)]
pub enum StickerType {
    Standard,
    Guild,
}

/// The image format of a sticker.
#[derive(Clone, Copy, Debug, PartialEq, Eq, Hash, Structural)]
pub enum StickerFormatType {
    PNG,
    APNG,
    Lottie,
}

/// A sticker.
#[derive(Debug)]
pub struct Sticker {
    pub id: Snowflake,
    pub pack_id: Option<Snowflake>,
    pub name: String,
    pub description: Option<String>,
    pub tags: String,
    pub asset: String,
    pub sticker_type: StickerType,
    pub format_type: StickerFormatType,
    pub available: Option<bool>,
    pub guild_id: Option<Snowflake>,
    pub user: Option<User>,
    pub sort_value: Option<u64>,
}

/// A guild.
#[derive(Debug)]
pub struct Guild {
    pub id: Snowflake,
    pub name: String,
    pub icon: Option<String>,
    pub icon_hash: Option<String>,
    pub splash: Option<String>,
    pub discovery_splash: Option<String>,
    pub owner: Option<bool>,
    pub owner_id: Snowflake,
    pub permissions: Option<String>,
    pub region: Option<String>,
    pub afk_channel_id: Option<Snowflake>,
    pub afk_timeout: u64,
    pub widget_enabled: Option<bool>,
    pub widget_channel_id: Option<Snowflake>,
    pub verification_level: u64,
    pub default_message_notifications: u64,
    pub explicit_content_filter: u64,
    pub roles: Vec<Role>,
    pub emojis: Vec<Emoji>,
    pub features: Vec<String>,
    pub mfa_level: u64,
    pub application_id: Option<Snowflake>,
    pub system_channel_id: Option<Snowflake>,
    pub system_channel_flags: u64,
    pub rules_channel_id: Option<Snowflake>,
    pub joined_at: Option<String>, 
    pub large: Option<bool>,
    pub unavailable: Option<bool>,
    pub member_count: Option<u64>,
    pub voice_states: Option<Vec<VoiceState>>,
    pub members: Option<Vec<GuildMember>>,
    pub channels: Option<Vec<Channel>>,
    pub threads: Option<Vec<Channel>>,
    pub presences: Option<Vec<PresenceUpdate>>,
    pub max_presences: Option<u64>,
    pub max_members: Option<u64>,
    pub vanity_url_code: Option<String>,
    pub description: Option<String>,
    pub premium_tier: u64,
    pub premium_subscriber_count: Option<u64>,
    pub preferred_locale: String,
    pub public_updates_channel_id: Option<Snowflake>,
    pub max_video_channel_users: Option<u64>,
    pub approximate_member_count: Option<u64>,
    pub approximate_presence_count: Option<u64>,
    pub welcome_screen: Option<WelcomeScreen>,
    pub nsfw_level: u64,
    pub stage_instances: Option<Vec<StageInstance>>,
    pub stickers: Option<Vec<Sticker>>,
}

/// A guild the client is a member of but has no data for yet.
#[derive(Clone, Debug)]
pub struct UnavailableGuild {
    pub id: Snowflake,
    pub unavailable: bool,
}

/// The application id and flags sent with the ready event.
#[derive(Clone, Debug)]
pub struct ReadyEventApplication {
    pub id: Snowflake,
    pub flags: Option<u64>,
}

/// The first envelope on a connection: how often to signal liveness.
#[derive(Clone, Debug)]
pub struct Hello {
    pub heartbeat_interval: u64,
}

/// The end of the handshake: the session, the bot user and its application.
#[derive(Debug)]
pub struct ReadyEvent {
    pub v: u64,
    pub user: User,
    pub guilds: Vec<UnavailableGuild>,
    pub session_id: String,
    pub shard: Option<Vec<u64>>,
    pub application: ReadyEventApplication,
}

/// A message pinned or unpinned in a channel.
#[derive(Clone, Debug)]
pub struct ChannelPinUpdateEvent {
    pub guild_id: Option<Snowflake>,
    pub channel_id: Snowflake,
    pub last_pin_timestamp: Option<String>,
}

/// A reaction added to a message.
#[derive(Debug)]
pub struct MessageReactionAddEvent {
    pub user_id: Option<Snowflake>,
    pub channel_id: Option<Snowflake>,
    pub message_id: Option<Snowflake>,
    pub guild_id: Option<Snowflake>,
    pub member: Option<GuildMember>,
    pub emoji: Option<Emoji>,
}

/// A message deleted.
#[derive(Clone, Debug)]
pub struct MessageDeleteEvent {
    pub id: Snowflake,
    pub channel_id: Snowflake,
    pub guild_id: Option<Snowflake>,
}

/// Messages deleted at once.
#[derive(Clone, Debug)]
pub struct MessageBulkDeleteEvent {
    pub ids: Vec<Snowflake>,
    pub channel_id: Snowflake,
    pub guild_id: Option<Snowflake>,
}

/// A reaction removed from a message.
#[derive(Debug)]
pub struct MessageReactionRemoveEvent {
    pub user_id: Option<Snowflake>,
    pub channel_id: Option<Snowflake>,
    pub message_id: Option<Snowflake>,
    pub guild_id: Option<Snowflake>,
    pub emoji: Option<Emoji>,
}

/// All reactions removed from a message.
#[derive(Clone, Debug)]
pub struct MessageRemoveAllReactionEvent {
    pub channel_id: Snowflake,
    pub message_id: Snowflake,
    pub guild_id: Option<Snowflake>,
}

/// All reactions of one emoji removed from a message.
#[derive(Debug)]
pub struct MessageReactionRemoveEmojiEvent {
    pub channel_id: Snowflake,
    pub message_id: Option<Snowflake>,
    pub guild_id: Option<Snowflake>,
    pub emoji: Emoji,
}

/// A user started typing.
#[derive(Debug)]
pub struct TypingStartEvent {
    pub channel_id: Snowflake,
    pub guild_id: Option<Snowflake>,
    pub user_id: Snowflake,
    pub timestamp: u64,
    pub member: GuildMember
}

/// The voice server of a guild changed.
#[derive(Clone, Debug)]
pub struct VoiceServerUpdateEvent {
    pub token : String,
    pub guild_id: Option<Snowflake>,
    pub endpoint: Option<String>
}

/// The webhooks of a channel changed.
#[derive(Clone, Debug)]
pub struct WebhookUpdateEvent{
    pub guild_id: Option<Snowflake>,
    pub channel_id: Snowflake,
}

/// The tag an inbound envelope is routed under: a named event, or a control opcode.
#[derive(Clone, Copy, Debug, PartialEq, Eq, Hash, Structural)]
pub enum GatewayEventBinding {
    HeartbeatOk,
    Heartbeat,
    Hello,
    Ready,
    Resumed,
    Reconnect,
    InvalidSession,
    ChannelCreate,
    ChannelUpdate,
    ChannelDelete,
    ChannelPinsUpdate,
    ThreadCreate,
    ThreadUpdate,
    ThreadDelete,
    ThreadListSync,
    ThreadMemberUpdate,
    ThreadMembersUpdate,
    GuildCreate,
    GuildUpdate,
    GuildDelete,
    GuildBanAdd,
    GuildBanRemove,
    GuildEmojisUpdate,
    GuildStickersUpdate,
    GuildIntegrationsUpdate,
    GuildMemberAdd,
    GuildMemberRemove,
    GuildMemberUpdate,
    GuildMembersChunk,
    GuildRoleCreate,
    GuildRoleUpdate,
    GuildRoleDelete,
    IntegrationCreate,
    IntegrationUpdate,
    IntegrationDelete,
    InteractionCreate,
    InviteCreate,
    InviteDelete,
    MessageCreate,
    MessageUpdate,
    MessageDelete,
    MessageDeleteBulk,
    MessageReactionAdd,
    MessageReactionRemove,
    MessageReactionRemoveAll,
    MessageReactionRemoveEmoji,
    PresenceUpdate,
    StageInstanceCreate,
    StageInstanceDelete,
    StageInstanceUpdate,
    TypingStart,
    UserUpdate,
    VoiceStateUpdate,
    VoiceServerUpdate,
    WebhooksUpdate,
}

/// The message a reply answers.
#[derive(Clone, Debug)]
pub struct Reply {
    pub message_id: Option<Snowflake>,
    pub channel_id: Option<Snowflake>,
    pub guild_id: Option<Snowflake>,
}

/// A message to send, built step by step.
#[derive(Clone, Debug)]
pub struct ReplyMessage {
    pub content: Option<String>,
    pub tts: bool,
    pub embeds: Option<Vec<Embed>>,
    pub message_reference: Option<Reply>,
    pub sticker_ids: Option<Vec<Snowflake>>,
    pub ephemeral: bool,
}

/// The text of a snowflake: the decimal digits of an integer id, or the
/// string id itself.
pub open spec fn snowflake_text(s: Snowflake) -> Seq<char> {
    match s {
        Snowflake::Integer(n) => decimal_digits(n as nat),
        Snowflake::String(t) => t@,
    }
}

/// The items of an optional list, the empty sequence when it is absent.
pub open spec fn items_of<T>(v: Option<Vec<T>>) -> Seq<T> {
    match v {
        Some(items) => items@,
        None => Seq::empty(),
    }
}

/// An attachment that holds the url `url` and nothing else.
pub open spec fn bare_attachment(a: EmbedAttachment, url: Seq<char>) -> bool {
    a.url@ == url && a.proxy_url.is_none() && a.height.is_none() && a.width.is_none()
}

/// An optional borrowed string turned into an owned one.
pub open spec fn owned_text(s: Option<&str>, r: Option<String>) -> bool {
    match s {
        Some(t) => r.is_some() && r.unwrap()@ == t@,
        None => r.is_none(),
    }
}

fn owned_option(s: Option<&str>) -> (r: Option<String>)
    ensures
        owned_text(s, r),
{
    match s {
        Some(value) => Some(value.to_owned()),
        None => None,
    }
}

impl Snowflake {
    /// The textual form of the id, as it appears in request paths.
    pub fn to_display_string(&self) -> (r: String)
        ensures
            r@ == snowflake_text(*self),
    {
        match self {
            Snowflake::Integer(integer_value) => u64_to_decimal(*integer_value),
            Snowflake::String(string_value) => string_value.clone(),
        }
    }
}

impl Reply {
    fn new(
        message_id: Option<Snowflake>,
        channel_id: Option<Snowflake>,
        guild_id: Option<Snowflake>,
    ) -> (r: Self)
        ensures
            r == (Reply { message_id, channel_id, guild_id }),
    {
        Self { message_id, channel_id, guild_id }
    }
}

/// The message flag that hides an interaction response from everyone but the
/// invoking user.
pub const EPHEMERAL_FLAG: u64 = 64;

impl ReplyMessage {
    pub fn new(tts: bool) -> (r: Self)
        ensures
            r.content.is_none(),
            r.tts == tts,
            r.embeds.is_none(),
            r.message_reference.is_none(),
            r.sticker_ids.is_none(),
            !r.ephemeral,
    {
        Self {
            content: None,
            tts,
            embeds: None,
            message_reference: None,
            sticker_ids: None,
            ephemeral: false,
        }
    }

    pub fn content_str(self, content: &str) -> (r: ReplyMessage)
        ensures
            r.content.is_some(),
            r.content.unwrap()@ == content@,
            r == (ReplyMessage { content: r.content, ..self }),
    {
        let mut reply = self;
        reply.content = Some(content.to_owned());
        reply
    }

    pub fn content_string(self, content: String) -> (r: ReplyMessage)
        ensures
            r == (ReplyMessage { content: Some(content), ..self }),
    {
        let mut reply = self;
        reply.content = Some(content);
        reply
    }

    /// Toggles on/off the ephemeral flag for interaction based responses.
    pub fn ephemeral(self) -> (r: ReplyMessage)
        ensures
            r == (ReplyMessage { ephemeral: !self.ephemeral, ..self }),
    {
        let mut reply = self;
        reply.ephemeral = !reply.ephemeral;
        reply
    }

    pub fn add_embed(self, embed: Embed) -> (r: ReplyMessage)
        ensures
            r.embeds.is_some(),
            r.embeds.unwrap()@ == items_of(self.embeds).push(embed),
            r == (ReplyMessage { embeds: r.embeds, ..self }),
    {
        let mut reply = self;
        let embeds = match reply.embeds {
            Some(mut current) => {
                current.push(embed);
                current
            },
            None => vec![embed],
        };
        reply.embeds = Some(embeds);
        reply
    }

    /// Makes the reply answer `message`.
    pub fn reply_message(self, message: Message) -> (r: ReplyMessage)
        ensures
            r == (ReplyMessage {
                message_reference: Some(Reply { message_id: Some(message.id), channel_id: None, guild_id: None }),
                ..self
            }),
    {
        let mut reply = self;
        reply.message_reference = Some(Reply::new(Some(message.id), None, None));
        reply
    }

    /// The message flags sent along with an interaction response.
    pub fn flags(&self) -> (r: Option<u64>)
        ensures
            r == (if self.ephemeral { Some(EPHEMERAL_FLAG) } else { None::<u64> }),
    {
        if self.ephemeral {
            Some(EPHEMERAL_FLAG)
        } else {
            None
        }
    }
}

/// Path, below the API root, of the messages of a channel.
pub fn channel_messages_path(channel_id: &Snowflake) -> (r: String)
    ensures
        r@ == "/channels/"@ + snowflake_text(*channel_id) + "/messages"@,
{
    let mut path = "/channels/".to_owned();
    let id = channel_id.to_display_string();
    path.append(id.as_str());
    path.append("/messages");
    path
}

/// Path, below the API root, of the callback that answers an interaction.
pub fn interaction_callback_path(interaction: &Interaction) -> (r: String)
    ensures
        r@ == "/interactions/"@ + snowflake_text(interaction.id) + "/"@ + interaction.token@
            + "/callback"@,
{
    let mut path = "/interactions/".to_owned();
    let id = interaction.id.to_display_string();
    path.append(id.as_str());
    path.append("/");
    path.append(interaction.token.as_str());
    path.append("/callback");
    path
}

/// Path, below the API root, of the webhook that sends follow-up messages
/// for an interaction.
pub fn interaction_webhook_path(application_id: &Snowflake, interaction: &Interaction) -> (r:
    String)
    ensures
        r@ == "/webhooks/"@ + snowflake_text(*application_id) + "/"@ + interaction.token@,
{
    let mut path = "/webhooks/".to_owned();
    let id = application_id.to_display_string();
    path.append(id.as_str());
    path.append("/");
    path.append(interaction.token.as_str());
    path
}

impl Embed {
    pub fn new(title: &str, description: &str, colour: u64) -> (r: Self)
        ensures
            r.title.is_some() && r.title.unwrap()@ == title@,
            r.embed_type.is_some() && r.embed_type.unwrap()@ == "rich"@,
            r.description.is_some() && r.description.unwrap()@ == description@,
            r.url.is_none(),
            r.timestamp.is_none(),
            r.colour == Some(colour),
            r.footer.is_none(),
            r.image.is_none(),
            r.thumbnail.is_none(),
            r.video.is_none(),
            r.provider.is_none(),
            r.author.is_none(),
            r.fields.is_none(),
    {
        Self {
            title: Some(title.to_owned()),
            embed_type: Some("rich".to_owned()),
            description: Some(description.to_owned()),
            url: None,
            timestamp: None,
            colour: Some(colour),
            footer: None,
            thumbnail: None,
            image: None,
            video: None,
            provider: None,
            author: None,
            fields: None,
        }
    }

    pub fn video(self, url: &str) -> (r: Embed)
        ensures
            r.video.is_some(),
            bare_attachment(r.video.unwrap(), url@),
            r == (Embed { video: r.video, ..self }),
    {
        let mut embed = self;
        embed.video = Some(EmbedAttachment::new(url.to_owned()));
        embed
    }

    pub fn image(self, url: &str) -> (r: Embed)
        ensures
            r.image.is_some(),
            bare_attachment(r.image.unwrap(), url@),
            r == (Embed { image: r.image, ..self }),
    {
        let mut embed = self;
        embed.image = Some(EmbedAttachment::new(url.to_owned()));
        embed
    }

    pub fn thumbnail(self, url: &str) -> (r: Embed)
        ensures
            r.thumbnail.is_some(),
            bare_attachment(r.thumbnail.unwrap(), url@),
            r == (Embed { thumbnail: r.thumbnail, ..self }),
    {
        let mut embed = self;
        embed.thumbnail = Some(EmbedAttachment::new(url.to_owned()));
        embed
    }

    pub fn url(self, url: &str) -> (r: Embed)
        ensures
            r.url.is_some(),
            r.url.unwrap()@ == url@,
            r == (Embed { url: r.url, ..self }),
    {
        let mut embed = self;
        embed.url = Some(url.to_owned());
        embed
    }

    pub fn timestamp(self, timestamp: &str) -> (r: Embed)
        ensures
            r.timestamp.is_some(),
            r.timestamp.unwrap()@ == timestamp@,
            r == (Embed { timestamp: r.timestamp, ..self }),
    {
        let mut embed = self;
        embed.timestamp = Some(timestamp.to_owned());
        embed
    }

    pub fn change_colour(self, new_colour: u64) -> (r: Embed)
        ensures
            r == (Embed { colour: Some(new_colour), ..self }),
    {
        let mut embed = self;
        embed.colour = Some(new_colour);
        embed
    }

    pub fn footer(self, text: &str, icon_url: Option<&str>) -> (r: Embed)
        ensures
            r.footer.is_some(),
            r.footer.unwrap().text@ == text@,
            owned_text(icon_url, r.footer.unwrap().icon_url),
            r.footer.unwrap().proxy_icon_url.is_none(),
            r == (Embed { footer: r.footer, ..self }),
    {
        let icon_url = owned_option(icon_url);
        let mut embed = self;
        embed.footer = Some(EmbedFooter::new(text.to_owned(), icon_url));
        embed
    }

    pub fn author(self, name: &str, icon_url: Option<&str>, url: Option<&str>) -> (r: Embed)
        ensures
            r.author.is_some(),
            r.author.unwrap().name@ == name@,
            owned_text(icon_url, r.author.unwrap().icon_url),
            owned_text(url, r.author.unwrap().url),
            r.author.unwrap().proxy_icon_url.is_none(),
            r == (Embed { author: r.author, ..self }),
    {
        let icon_url = owned_option(icon_url);
        let url = owned_option(url);
        let mut embed = self;
        embed.author = Some(EmbedAuthor::new(name.to_owned(), url, icon_url));
        embed
    }

    pub fn add_field(self, name: &str, value: &str, inline: bool) -> (r: Embed)
        ensures
            r.fields.is_some(),
            r.fields.unwrap()@.len() == items_of(self.fields).len() + 1,
            r.fields.unwrap()@.drop_last() == items_of(self.fields),
            r.fields.unwrap()@.last().name@ == name@,
            r.fields.unwrap()@.last().value@ == value@,
            r.fields.unwrap()@.last().inline == Some(inline),
            r == (Embed { fields: r.fields, ..self }),
    {
        let field = EmbedField::new(name.to_owned(), value.to_owned(), inline);
        let mut embed = self;
        let fields = match embed.fields {
            Some(mut current) => {
                current.push(field);
                current
            },
            None => vec![field],
        };
        proof {
            assert(fields@.drop_last() =~= items_of(self.fields));
        }
        embed.fields = Some(fields);
        embed
    }
}

impl EmbedField {
    pub fn new(name: String, value: String, inline: bool) -> (r: Self)
        ensures
            r == (EmbedField { name, value, inline: Some(inline) }),
    {
        Self { name, value, inline: Some(inline) }
    }
}

impl EmbedAuthor {
    pub fn new(name: String, url: Option<String>, icon_url: Option<String>) -> (r: Self)
        ensures
            r == (EmbedAuthor { name, url, icon_url, proxy_icon_url: None }),
    {
        Self { name, url, icon_url, proxy_icon_url: None }
    }
}

impl EmbedFooter {
    pub fn new(text: String, icon_url: Option<String>) -> (r: Self)
        ensures
            r == (EmbedFooter { text, icon_url, proxy_icon_url: None }),
    {
        Self { text, icon_url, proxy_icon_url: None }
    }
}

impl EmbedAttachment {
    pub fn new(url: String) -> (r: Self)
        ensures
            r == (EmbedAttachment { url, proxy_url: None, height: None, width: None }),
    {
        Self { url, proxy_url: None, height: None, width: None }
    }
}

impl Message {
    /// Whether the author of the message is a bot account.
    pub fn is_bot(&self) -> (r: bool)
        ensures
            r == (self.author.bot == Some(true)),
    {
        match self.author.bot {
            Some(value) => value,
            None => false,
        }
    }
}

/// The position of an event tag in the list of tags; distinct tags have
/// distinct codes.
pub open spec fn binding_code(b: GatewayEventBinding) -> u64 {
    match b {
        GatewayEventBinding::HeartbeatOk => 0,
        GatewayEventBinding::Heartbeat => 1,
        GatewayEventBinding::Hello => 2,
        GatewayEventBinding::Ready => 3,
        GatewayEventBinding::Resumed => 4,
        GatewayEventBinding::Reconnect => 5,
        GatewayEventBinding::InvalidSession => 6,
        GatewayEventBinding::ChannelCreate => 7,
        GatewayEventBinding::ChannelUpdate => 8,
        GatewayEventBinding::ChannelDelete => 9,
        GatewayEventBinding::ChannelPinsUpdate => 10,
        GatewayEventBinding::ThreadCreate => 11,
        GatewayEventBinding::ThreadUpdate => 12,
        GatewayEventBinding::ThreadDelete => 13,
        GatewayEventBinding::ThreadListSync => 14,
        GatewayEventBinding::ThreadMemberUpdate => 15,
        GatewayEventBinding::ThreadMembersUpdate => 16,
        GatewayEventBinding::GuildCreate => 17,
        GatewayEventBinding::GuildUpdate => 18,
        GatewayEventBinding::GuildDelete => 19,
        GatewayEventBinding::GuildBanAdd => 20,
        GatewayEventBinding::GuildBanRemove => 21,
        GatewayEventBinding::GuildEmojisUpdate => 22,
        GatewayEventBinding::GuildStickersUpdate => 23,
        GatewayEventBinding::GuildIntegrationsUpdate => 24,
        GatewayEventBinding::GuildMemberAdd => 25,
        GatewayEventBinding::GuildMemberRemove => 26,
        GatewayEventBinding::GuildMemberUpdate => 27,
        GatewayEventBinding::GuildMembersChunk => 28,
        GatewayEventBinding::GuildRoleCreate => 29,
        GatewayEventBinding::GuildRoleUpdate => 30,
        GatewayEventBinding::GuildRoleDelete => 31,
        GatewayEventBinding::IntegrationCreate => 32,
        GatewayEventBinding::IntegrationUpdate => 33,
        GatewayEventBinding::IntegrationDelete => 34,
        GatewayEventBinding::InteractionCreate => 35,
        GatewayEventBinding::InviteCreate => 36,
        GatewayEventBinding::InviteDelete => 37,
        GatewayEventBinding::MessageCreate => 38,
        GatewayEventBinding::MessageUpdate => 39,
        GatewayEventBinding::MessageDelete => 40,
        GatewayEventBinding::MessageDeleteBulk => 41,
        GatewayEventBinding::MessageReactionAdd => 42,
        GatewayEventBinding::MessageReactionRemove => 43,
        GatewayEventBinding::MessageReactionRemoveAll => 44,
        GatewayEventBinding::MessageReactionRemoveEmoji => 45,
        GatewayEventBinding::PresenceUpdate => 46,
        GatewayEventBinding::StageInstanceCreate => 47,
        GatewayEventBinding::StageInstanceDelete => 48,
        GatewayEventBinding::StageInstanceUpdate => 49,
        GatewayEventBinding::TypingStart => 50,
        GatewayEventBinding::UserUpdate => 51,
        GatewayEventBinding::VoiceStateUpdate => 52,
        GatewayEventBinding::VoiceServerUpdate => 53,
        GatewayEventBinding::WebhooksUpdate => 54,
    }
}

/// The event tag whose code is `n`.
pub open spec fn binding_of_code(n: u64) -> Option<GatewayEventBinding> {
    if n == 0 {
        Some(GatewayEventBinding::HeartbeatOk)
    } else if n == 1 {
        Some(GatewayEventBinding::Heartbeat)
    } else if n == 2 {
        Some(GatewayEventBinding::Hello)
    } else if n == 3 {
        Some(GatewayEventBinding::Ready)
    } else if n == 4 {
        Some(GatewayEventBinding::Resumed)
    } else if n == 5 {
        Some(GatewayEventBinding::Reconnect)
    } else if n == 6 {
        Some(GatewayEventBinding::InvalidSession)
    } else if n == 7 {
        Some(GatewayEventBinding::ChannelCreate)
    } else if n == 8 {
        Some(GatewayEventBinding::ChannelUpdate)
    } else if n == 9 {
        Some(GatewayEventBinding::ChannelDelete)
    } else if n == 10 {
        Some(GatewayEventBinding::ChannelPinsUpdate)
    } else if n == 11 {
        Some(GatewayEventBinding::ThreadCreate)
    } else if n == 12 {
        Some(GatewayEventBinding::ThreadUpdate)
    } else if n == 13 {
        Some(GatewayEventBinding::ThreadDelete)
    } else if n == 14 {
        Some(GatewayEventBinding::ThreadListSync)
    } else if n == 15 {
        Some(GatewayEventBinding::ThreadMemberUpdate)
    } else if n == 16 {
        Some(GatewayEventBinding::ThreadMembersUpdate)
    } else if n == 17 {
        Some(GatewayEventBinding::GuildCreate)
    } else if n == 18 {
        Some(GatewayEventBinding::GuildUpdate)
    } else if n == 19 {
        Some(GatewayEventBinding::GuildDelete)
    } else if n == 20 {
        Some(GatewayEventBinding::GuildBanAdd)
    } else if n == 21 {
        Some(GatewayEventBinding::GuildBanRemove)
    } else if n == 22 {
        Some(GatewayEventBinding::GuildEmojisUpdate)
    } else if n == 23 {
        Some(GatewayEventBinding::GuildStickersUpdate)
    } else if n == 24 {
        Some(GatewayEventBinding::GuildIntegrationsUpdate)
    } else if n == 25 {
        Some(GatewayEventBinding::GuildMemberAdd)
    } else if n == 26 {
        Some(GatewayEventBinding::GuildMemberRemove)
    } else if n == 27 {
        Some(GatewayEventBinding::GuildMemberUpdate)
    } else if n == 28 {
        Some(GatewayEventBinding::GuildMembersChunk)
    } else if n == 29 {
        Some(GatewayEventBinding::GuildRoleCreate)
    } else if n == 30 {
        Some(GatewayEventBinding::GuildRoleUpdate)
    } else if n == 31 {
        Some(GatewayEventBinding::GuildRoleDelete)
    } else if n == 32 {
        Some(GatewayEventBinding::IntegrationCreate)
    } else if n == 33 {
        Some(GatewayEventBinding::IntegrationUpdate)
    } else if n == 34 {
        Some(GatewayEventBinding::IntegrationDelete)
    } else if n == 35 {
        Some(GatewayEventBinding::InteractionCreate)
    } else if n == 36 {
        Some(GatewayEventBinding::InviteCreate)
    } else if n == 37 {
        Some(GatewayEventBinding::InviteDelete)
    } else if n == 38 {
        Some(GatewayEventBinding::MessageCreate)
    } else if n == 39 {
        Some(GatewayEventBinding::MessageUpdate)
    } else if n == 40 {
        Some(GatewayEventBinding::MessageDelete)
    } else if n == 41 {
        Some(GatewayEventBinding::MessageDeleteBulk)
    } else if n == 42 {
        Some(GatewayEventBinding::MessageReactionAdd)
    } else if n == 43 {
        Some(GatewayEventBinding::MessageReactionRemove)
    } else if n == 44 {
        Some(GatewayEventBinding::MessageReactionRemoveAll)
    } else if n == 45 {
        Some(GatewayEventBinding::MessageReactionRemoveEmoji)
    } else if n == 46 {
        Some(GatewayEventBinding::PresenceUpdate)
    } else if n == 47 {
        Some(GatewayEventBinding::StageInstanceCreate)
    } else if n == 48 {
        Some(GatewayEventBinding::StageInstanceDelete)
    } else if n == 49 {
        Some(GatewayEventBinding::StageInstanceUpdate)
    } else if n == 50 {
        Some(GatewayEventBinding::TypingStart)
    } else if n == 51 {
        Some(GatewayEventBinding::UserUpdate)
    } else if n == 52 {
        Some(GatewayEventBinding::VoiceStateUpdate)
    } else if n == 53 {
        Some(GatewayEventBinding::VoiceServerUpdate)
    } else if n == 54 {
        Some(GatewayEventBinding::WebhooksUpdate)
    } else {
        None
    }
}

/// Each tag is recovered from its code, so no two tags share one.
pub proof fn lemma_binding_code_injective(a: GatewayEventBinding, b: GatewayEventBinding)
    ensures
        binding_of_code(binding_code(a)) == Some(a),
        binding_code(a) == binding_code(b) ==> a == b,
{
    assert(binding_of_code(binding_code(b)) == Some(b));
}

impl GatewayEventBinding {
    /// The code of this tag.
    pub fn code(&self) -> (r: u64)
        ensures
            r == binding_code(*self),
    {
        match self {
            GatewayEventBinding::HeartbeatOk => 0,
            GatewayEventBinding::Heartbeat => 1,
            GatewayEventBinding::Hello => 2,
            GatewayEventBinding::Ready => 3,
            GatewayEventBinding::Resumed => 4,
            GatewayEventBinding::Reconnect => 5,
            GatewayEventBinding::InvalidSession => 6,
            GatewayEventBinding::ChannelCreate => 7,
            GatewayEventBinding::ChannelUpdate => 8,
            GatewayEventBinding::ChannelDelete => 9,
            GatewayEventBinding::ChannelPinsUpdate => 10,
            GatewayEventBinding::ThreadCreate => 11,
            GatewayEventBinding::ThreadUpdate => 12,
            GatewayEventBinding::ThreadDelete => 13,
            GatewayEventBinding::ThreadListSync => 14,
            GatewayEventBinding::ThreadMemberUpdate => 15,
            GatewayEventBinding::ThreadMembersUpdate => 16,
            GatewayEventBinding::GuildCreate => 17,
            GatewayEventBinding::GuildUpdate => 18,
            GatewayEventBinding::GuildDelete => 19,
            GatewayEventBinding::GuildBanAdd => 20,
            GatewayEventBinding::GuildBanRemove => 21,
            GatewayEventBinding::GuildEmojisUpdate => 22,
            GatewayEventBinding::GuildStickersUpdate => 23,
            GatewayEventBinding::GuildIntegrationsUpdate => 24,
            GatewayEventBinding::GuildMemberAdd => 25,
            GatewayEventBinding::GuildMemberRemove => 26,
            GatewayEventBinding::GuildMemberUpdate => 27,
            GatewayEventBinding::GuildMembersChunk => 28,
            GatewayEventBinding::GuildRoleCreate => 29,
            GatewayEventBinding::GuildRoleUpdate => 30,
            GatewayEventBinding::GuildRoleDelete => 31,
            GatewayEventBinding::IntegrationCreate => 32,
            GatewayEventBinding::IntegrationUpdate => 33,
            GatewayEventBinding::IntegrationDelete => 34,
            GatewayEventBinding::InteractionCreate => 35,
            GatewayEventBinding::InviteCreate => 36,
            GatewayEventBinding::InviteDelete => 37,
            GatewayEventBinding::MessageCreate => 38,
            GatewayEventBinding::MessageUpdate => 39,
            GatewayEventBinding::MessageDelete => 40,
            GatewayEventBinding::MessageDeleteBulk => 41,
            GatewayEventBinding::MessageReactionAdd => 42,
            GatewayEventBinding::MessageReactionRemove => 43,
            GatewayEventBinding::MessageReactionRemoveAll => 44,
            GatewayEventBinding::MessageReactionRemoveEmoji => 45,
            GatewayEventBinding::PresenceUpdate => 46,
            GatewayEventBinding::StageInstanceCreate => 47,
            GatewayEventBinding::StageInstanceDelete => 48,
            GatewayEventBinding::StageInstanceUpdate => 49,
            GatewayEventBinding::TypingStart => 50,
            GatewayEventBinding::UserUpdate => 51,
            GatewayEventBinding::VoiceStateUpdate => 52,
            GatewayEventBinding::VoiceServerUpdate => 53,
            GatewayEventBinding::WebhooksUpdate => 54,
        }
    }
}

} // verus!

//! Protocol data model: opcodes, event tags, and the packet types the
//! session engine reads and writes.

use vstd::prelude::*;
use vstd::string::*;

use crate::text::str_eq;

verus! {

/// A numeric identifier transmitted as a string, so that consumers without
/// 64-bit integers do not lose precision. Compared as the transmitted
/// string.
#[derive(Debug)]
pub struct Snowflake(pub String);

impl Clone for Snowflake {
    /// The copy carries the same identifier text.
    fn clone(&self) -> (r: Self)
        ensures
            r.0@ == self.0@,
    {
        Snowflake(self.0.clone())
    }
}

impl PartialEq for Snowflake {
    fn eq(&self, other: &Snowflake) -> (r: bool) {
        self.0 == other.0
    }
}

impl Snowflake {
    /// The numeric value of the identifier: present exactly when the
    /// transmitted text is a non-empty digit string whose value fits.
    pub fn to_u64(&self) -> (r: Option<u64>)
        ensures
            match r {
                Some(v) => self.0@.len() > 0 && crate::text::all_dec_digits(self.0@)
                    && crate::text::dec_value(self.0@) <= u64::MAX && v == crate::text::dec_value(
                    self.0@,
                ),
                None => self.0@.len() == 0 || !crate::text::all_dec_digits(self.0@)
                    || crate::text::dec_value(self.0@) > u64::MAX,
            },
    {
        crate::text::parse_u64(self.0.as_str())
    }
}

impl vstd::std_specs::cmp::PartialEqSpecImpl for Snowflake {
    open spec fn obeys_eq_spec() -> bool {
        true
    }

    open spec fn eq_spec(&self, other: &Snowflake) -> bool {
        self.0@ == other.0@
    }
}

/// Opcodes of the gateway protocol.
#[derive(Debug, Clone, Copy, PartialEq, Eq, Structural)]
pub enum OpCode {
    Dispatch,
    Heartbeat,
    Identify,
    StatusUpdate,
    VoiceStateUpdate,
    Resume,
    Reconnect,
    RequestGuildMembers,
    InvalidSession,
    Hello,
    HeartbeatACK,
}

/// The numeric value an opcode has on the wire.
pub open spec fn opcode_value(op: OpCode) -> u8 {
    match op {
        OpCode::Dispatch => 0,
        OpCode::Heartbeat => 1,
        OpCode::Identify => 2,
        OpCode::StatusUpdate => 3,
        OpCode::VoiceStateUpdate => 4,
        OpCode::Resume => 6,
        OpCode::Reconnect => 7,
        OpCode::RequestGuildMembers => 8,
        OpCode::InvalidSession => 9,
        OpCode::Hello => 10,
        OpCode::HeartbeatACK => 11,
    }
}

/// The opcode a wire number stands for, if any. `5` is unassigned, and
/// everything above `11` is unknown: both decode to `None`.
pub open spec fn opcode_of(value: u64) -> Option<OpCode> {
    if value == 0 {
        Some(OpCode::Dispatch)
    } else if value == 1 {
        Some(OpCode::Heartbeat)
    } else if value == 2 {
        Some(OpCode::Identify)
    } else if value == 3 {
        Some(OpCode::StatusUpdate)
    } else if value == 4 {
        Some(OpCode::VoiceStateUpdate)
    } else if value == 6 {
        Some(OpCode::Resume)
    } else if value == 7 {
        Some(OpCode::Reconnect)
    } else if value == 8 {
        Some(OpCode::RequestGuildMembers)
    } else if value == 9 {
        Some(OpCode::InvalidSession)
    } else if value == 10 {
        Some(OpCode::Hello)
    } else if value == 11 {
        Some(OpCode::HeartbeatACK)
    } else {
        None
    }
}

impl OpCode {
    /// Encode the opcode as its wire number.
    pub fn as_u8(&self) -> (r: u8)
        ensures
            r == opcode_value(*self),
    {
        match self {
            OpCode::Dispatch => 0,
            OpCode::Heartbeat => 1,
            OpCode::Identify => 2,
            OpCode::StatusUpdate => 3,
            OpCode::VoiceStateUpdate => 4,
            OpCode::Resume => 6,
            OpCode::Reconnect => 7,
            OpCode::RequestGuildMembers => 8,
            OpCode::InvalidSession => 9,
            OpCode::Hello => 10,
            OpCode::HeartbeatACK => 11,
        }
    }

    /// Decode a wire number; `None` exactly on the numbers no opcode has.
    pub fn try_from_u64(value: u64) -> (r: Option<OpCode>)
        ensures
            r == opcode_of(value),
    {
        if value == 0 {
            Some(OpCode::Dispatch)
        } else if value == 1 {
            Some(OpCode::Heartbeat)
        } else if value == 2 {
            Some(OpCode::Identify)
        } else if value == 3 {
            Some(OpCode::StatusUpdate)
        } else if value == 4 {
            Some(OpCode::VoiceStateUpdate)
        } else if value == 6 {
            Some(OpCode::Resume)
        } else if value == 7 {
            Some(OpCode::Reconnect)
        } else if value == 8 {
            Some(OpCode::RequestGuildMembers)
        } else if value == 9 {
            Some(OpCode::InvalidSession)
        } else if value == 10 {
            Some(OpCode::Hello)
        } else if value == 11 {
            Some(OpCode::HeartbeatACK)
        } else {
            None
        }
    }
}

/// Event tag for the payload of a Dispatch packet.
#[derive(Debug, Clone, Copy, PartialEq, Eq, Structural)]
pub enum Event {
    /// Defines the heartbeat interval
    Hello,
    /// Contains the initial state information
    Ready,
    /// Response to Resume
    Resumed,
    /// Failure response to Identify or Resume or invalid active session
    InvalidSession,
    /// New channel created
    ChannelCreate,
    /// Channel was updated
    ChannelUpdate,
    /// Channel was deleted
    ChannelDelete,
    /// Message was pinned or unpinned
    ChannelPinsUpdate,
    /// Lazy-load for unavailable guild, guild became available, or user joined a new guild
    GuildCreate,
    /// Guild was updated
    GuildUpdate,
    /// Guild became unavailable, or user left/was removed from a guild
    GuildDelete,
    /// User was banned from a guild
    GuildBanAdd,
    /// User was unbanned from a guild
    GuildBanRemove,
    /// Guild emojis were updated
    GuildEmojisUpdate,
    /// Guild integration was updated
    GuildIntegrationsUpdate,
    /// New user joined a guild
    GuildMemberAdd,
    /// User was removed from a guild
    GuildMemberRemove,
    /// Guild member was updated
    GuildMemberUpdate,
    /// Response to Request Guild Members
    GuildMembersChunk,
    /// Guild role was created
    GuildRoleCreate,
    /// Guild role was updated
    GuildRoleUpdate,
    /// Guild role was deleted
    GuildRoleDelete,
    /// Message was created
    MessageCreate,
    /// Message was edited
    MessageUpdate,
    /// Message was deleted
    MessageDelete,
    /// Multiple messages were deleted at once
    MessageDeleteBulk,
    /// User reacted to a message
    MessageReactionAdd,
    /// User removed a reaction from a message
    MessageReactionRemove,
    /// All reactions were explicitly removed from a message
    MessageReactionRemoveAll,
    /// User was updated
    PresenceUpdate,
    /// User started typing in a channel
    TypingStart,
    /// Properties about the user changed
    UserUpdate,
    /// Someone joined, left, or moved a voice channel
    VoiceStateUpdate,
    /// Guild's voice server was updated
    VoiceServerUpdate,
    /// Guild channel webhook was created, updated, or deleted
    WebhooksUpdate,
}

/// The tag an event carries on the wire.
pub open spec fn event_name(e: Event) -> Seq<char> {
    match e {
        Event::Hello => "HELLO"@,
        Event::Ready => "READY"@,
        Event::Resumed => "RESUMED"@,
        Event::InvalidSession => "INVALID_SESSION"@,
        Event::ChannelCreate => "CHANNEL_CREATE"@,
        Event::ChannelUpdate => "CHANNEL_UPDATE"@,
        Event::ChannelDelete => "CHANNEL_DELETE"@,
        Event::ChannelPinsUpdate => "CHANNEL_PINS_UPDATE"@,
        Event::GuildCreate => "GUILD_CREATE"@,
        Event::GuildUpdate => "GUILD_UPDATE"@,
        Event::GuildDelete => "GUILD_DELETE"@,
        Event::GuildBanAdd => "GUILD_BAN_ADD"@,
        Event::GuildBanRemove => "GUILD_BAN_REMOVE"@,
        Event::GuildEmojisUpdate => "GUILD_EMOJIS_UPDATE"@,
        Event::GuildIntegrationsUpdate => "GUILD_INTEGRATIONS_UPDATE"@,
        Event::GuildMemberAdd => "GUILD_MEMBER_ADD"@,
        Event::GuildMemberRemove => "GUILD_MEMBER_REMOVE"@,
        Event::GuildMemberUpdate => "GUILD_MEMBER_UPDATE"@,
        Event::GuildMembersChunk => "GUILD_MEMBERS_CHUNK"@,
        Event::GuildRoleCreate => "GUILD_ROLE_CREATE"@,
        Event::GuildRoleUpdate => "GUILD_ROLE_UPDATE"@,
        Event::GuildRoleDelete => "GUILD_ROLE_DELETE"@,
        Event::MessageCreate => "MESSAGE_CREATE"@,
        Event::MessageUpdate => "MESSAGE_UPDATE"@,
        Event::MessageDelete => "MESSAGE_DELETE"@,
        Event::MessageDeleteBulk => "MESSAGE_DELETE_BULK"@,
        Event::MessageReactionAdd => "MESSAGE_REACTION_ADD"@,
        Event::MessageReactionRemove => "MESSAGE_REACTION_REMOVE"@,
        Event::MessageReactionRemoveAll => "MESSAGE_REACTION_REMOVE_ALL"@,
        Event::PresenceUpdate => "PRESENCE_UPDATE"@,
        Event::TypingStart => "TYPING_START"@,
        Event::UserUpdate => "USER_UPDATE"@,
        Event::VoiceStateUpdate => "VOICE_STATE_UPDATE"@,
        Event::VoiceServerUpdate => "VOICE_SERVER_UPDATE"@,
        Event::WebhooksUpdate => "WEBHOOKS_UPDATE"@,
    }
}

/// The event a wire tag stands for; `None` on every unrecognized tag.
pub open spec fn event_of(s: Seq<char>) -> Option<Event> {
    if s == "HELLO"@ {
        Some(Event::Hello)
    } else if s == "READY"@ {
        Some(Event::Ready)
    } else if s == "RESUMED"@ {
        Some(Event::Resumed)
    } else if s == "INVALID_SESSION"@ {
        Some(Event::InvalidSession)
    } else if s == "CHANNEL_CREATE"@ {
        Some(Event::ChannelCreate)
    } else if s == "CHANNEL_UPDATE"@ {
        Some(Event::ChannelUpdate)
    } else if s == "CHANNEL_DELETE"@ {
        Some(Event::ChannelDelete)
    } else if s == "CHANNEL_PINS_UPDATE"@ {
        Some(Event::ChannelPinsUpdate)
    } else if s == "GUILD_CREATE"@ {
        Some(Event::GuildCreate)
    } else if s == "GUILD_UPDATE"@ {
        Some(Event::GuildUpdate)
    } else if s == "GUILD_DELETE"@ {
        Some(Event::GuildDelete)
    } else if s == "GUILD_BAN_ADD"@ {
        Some(Event::GuildBanAdd)
    } else if s == "GUILD_BAN_REMOVE"@ {
        Some(Event::GuildBanRemove)
    } else if s == "GUILD_EMOJIS_UPDATE"@ {
        Some(Event::GuildEmojisUpdate)
    } else if s == "GUILD_INTEGRATIONS_UPDATE"@ {
        Some(Event::GuildIntegrationsUpdate)
    } else if s == "GUILD_MEMBER_ADD"@ {
        Some(Event::GuildMemberAdd)
    } else if s == "GUILD_MEMBER_REMOVE"@ {
        Some(Event::GuildMemberRemove)
    } else if s == "GUILD_MEMBER_UPDATE"@ {
        Some(Event::GuildMemberUpdate)
    } else if s == "GUILD_MEMBERS_CHUNK"@ {
        Some(Event::GuildMembersChunk)
    } else if s == "GUILD_ROLE_CREATE"@ {
        Some(Event::GuildRoleCreate)
    } else if s == "GUILD_ROLE_UPDATE"@ {
        Some(Event::GuildRoleUpdate)
    } else if s == "GUILD_ROLE_DELETE"@ {
        Some(Event::GuildRoleDelete)
    } else if s == "MESSAGE_CREATE"@ {
        Some(Event::MessageCreate)
    } else if s == "MESSAGE_UPDATE"@ {
        Some(Event::MessageUpdate)
    } else if s == "MESSAGE_DELETE"@ {
        Some(Event::MessageDelete)
    } else if s == "MESSAGE_DELETE_BULK"@ {
        Some(Event::MessageDeleteBulk)
    } else if s == "MESSAGE_REACTION_ADD"@ {
        Some(Event::MessageReactionAdd)
    } else if s == "MESSAGE_REACTION_REMOVE"@ {
        Some(Event::MessageReactionRemove)
    } else if s == "MESSAGE_REACTION_REMOVE_ALL"@ {
        Some(Event::MessageReactionRemoveAll)
    } else if s == "PRESENCE_UPDATE"@ {
        Some(Event::PresenceUpdate)
    } else if s == "TYPING_START"@ {
        Some(Event::TypingStart)
    } else if s == "USER_UPDATE"@ {
        Some(Event::UserUpdate)
    } else if s == "VOICE_STATE_UPDATE"@ {
        Some(Event::VoiceStateUpdate)
    } else if s == "VOICE_SERVER_UPDATE"@ {
        Some(Event::VoiceServerUpdate)
    } else if s == "WEBHOOKS_UPDATE"@ {
        Some(Event::WebhooksUpdate)
    } else {
        None
    }
}

impl Event {
    /// Encode the event as its wire tag.
    pub fn as_name(&self) -> (r: String)
        ensures
            r@ == event_name(*self),
    {
        match self {
            Event::Hello => String::from_str("HELLO"),
            Event::Ready => String::from_str("READY"),
            Event::Resumed => String::from_str("RESUMED"),
            Event::InvalidSession => String::from_str("INVALID_SESSION"),
            Event::ChannelCreate => String::from_str("CHANNEL_CREATE"),
            Event::ChannelUpdate => String::from_str("CHANNEL_UPDATE"),
            Event::ChannelDelete => String::from_str("CHANNEL_DELETE"),
            Event::ChannelPinsUpdate => String::from_str("CHANNEL_PINS_UPDATE"),
            Event::GuildCreate => String::from_str("GUILD_CREATE"),
            Event::GuildUpdate => String::from_str("GUILD_UPDATE"),
            Event::GuildDelete => String::from_str("GUILD_DELETE"),
            Event::GuildBanAdd => String::from_str("GUILD_BAN_ADD"),
            Event::GuildBanRemove => String::from_str("GUILD_BAN_REMOVE"),
            Event::GuildEmojisUpdate => String::from_str("GUILD_EMOJIS_UPDATE"),
            Event::GuildIntegrationsUpdate => String::from_str("GUILD_INTEGRATIONS_UPDATE"),
            Event::GuildMemberAdd => String::from_str("GUILD_MEMBER_ADD"),
            Event::GuildMemberRemove => String::from_str("GUILD_MEMBER_REMOVE"),
            Event::GuildMemberUpdate => String::from_str("GUILD_MEMBER_UPDATE"),
            Event::GuildMembersChunk => String::from_str("GUILD_MEMBERS_CHUNK"),
            Event::GuildRoleCreate => String::from_str("GUILD_ROLE_CREATE"),
            Event::GuildRoleUpdate => String::from_str("GUILD_ROLE_UPDATE"),
            Event::GuildRoleDelete => String::from_str("GUILD_ROLE_DELETE"),
            Event::MessageCreate => String::from_str("MESSAGE_CREATE"),
            Event::MessageUpdate => String::from_str("MESSAGE_UPDATE"),
            Event::MessageDelete => String::from_str("MESSAGE_DELETE"),
            Event::MessageDeleteBulk => String::from_str("MESSAGE_DELETE_BULK"),
            Event::MessageReactionAdd => String::from_str("MESSAGE_REACTION_ADD"),
            Event::MessageReactionRemove => String::from_str("MESSAGE_REACTION_REMOVE"),
            Event::MessageReactionRemoveAll => String::from_str("MESSAGE_REACTION_REMOVE_ALL"),
            Event::PresenceUpdate => String::from_str("PRESENCE_UPDATE"),
            Event::TypingStart => String::from_str("TYPING_START"),
            Event::UserUpdate => String::from_str("USER_UPDATE"),
            Event::VoiceStateUpdate => String::from_str("VOICE_STATE_UPDATE"),
            Event::VoiceServerUpdate => String::from_str("VOICE_SERVER_UPDATE"),
            Event::WebhooksUpdate => String::from_str("WEBHOOKS_UPDATE"),
        }
    }

    /// Decode a wire tag; `None` exactly on the tags no event has.
    pub fn try_from_name(value: &str) -> (r: Option<Event>)
        ensures
            r == event_of(value@),
    {
        if str_eq(value, "HELLO") {
            Some(Event::Hello)
        } else if str_eq(value, "READY") {
            Some(Event::Ready)
        } else if str_eq(value, "RESUMED") {
            Some(Event::Resumed)
        } else if str_eq(value, "INVALID_SESSION") {
            Some(Event::InvalidSession)
        } else if str_eq(value, "CHANNEL_CREATE") {
            Some(Event::ChannelCreate)
        } else if str_eq(value, "CHANNEL_UPDATE") {
            Some(Event::ChannelUpdate)
        } else if str_eq(value, "CHANNEL_DELETE") {
            Some(Event::ChannelDelete)
        } else if str_eq(value, "CHANNEL_PINS_UPDATE") {
            Some(Event::ChannelPinsUpdate)
        } else if str_eq(value, "GUILD_CREATE") {
            Some(Event::GuildCreate)
        } else if str_eq(value, "GUILD_UPDATE") {
            Some(Event::GuildUpdate)
        } else if str_eq(value, "GUILD_DELETE") {
            Some(Event::GuildDelete)
        } else if str_eq(value, "GUILD_BAN_ADD") {
            Some(Event::GuildBanAdd)
        } else if str_eq(value, "GUILD_BAN_REMOVE") {
            Some(Event::GuildBanRemove)
        } else if str_eq(value, "GUILD_EMOJIS_UPDATE") {
            Some(Event::GuildEmojisUpdate)
        } else if str_eq(value, "GUILD_INTEGRATIONS_UPDATE") {
            Some(Event::GuildIntegrationsUpdate)
        } else if str_eq(value, "GUILD_MEMBER_ADD") {
            Some(Event::GuildMemberAdd)
        } else if str_eq(value, "GUILD_MEMBER_REMOVE") {
            Some(Event::GuildMemberRemove)
        } else if str_eq(value, "GUILD_MEMBER_UPDATE") {
            Some(Event::GuildMemberUpdate)
        } else if str_eq(value, "GUILD_MEMBERS_CHUNK") {
            Some(Event::GuildMembersChunk)
        } else if str_eq(value, "GUILD_ROLE_CREATE") {
            Some(Event::GuildRoleCreate)
        } else if str_eq(value, "GUILD_ROLE_UPDATE") {
            Some(Event::GuildRoleUpdate)
        } else if str_eq(value, "GUILD_ROLE_DELETE") {
            Some(Event::GuildRoleDelete)
        } else if str_eq(value, "MESSAGE_CREATE") {
            Some(Event::MessageCreate)
        } else if str_eq(value, "MESSAGE_UPDATE") {
            Some(Event::MessageUpdate)
        } else if str_eq(value, "MESSAGE_DELETE") {
            Some(Event::MessageDelete)
        } else if str_eq(value, "MESSAGE_DELETE_BULK") {
            Some(Event::MessageDeleteBulk)
        } else if str_eq(value, "MESSAGE_REACTION_ADD") {
            Some(Event::MessageReactionAdd)
        } else if str_eq(value, "MESSAGE_REACTION_REMOVE") {
            Some(Event::MessageReactionRemove)
        } else if str_eq(value, "MESSAGE_REACTION_REMOVE_ALL") {
            Some(Event::MessageReactionRemoveAll)
        } else if str_eq(value, "PRESENCE_UPDATE") {
            Some(Event::PresenceUpdate)
        } else if str_eq(value, "TYPING_START") {
            Some(Event::TypingStart)
        } else if str_eq(value, "USER_UPDATE") {
            Some(Event::UserUpdate)
        } else if str_eq(value, "VOICE_STATE_UPDATE") {
            Some(Event::VoiceStateUpdate)
        } else if str_eq(value, "VOICE_SERVER_UPDATE") {
            Some(Event::VoiceServerUpdate)
        } else if str_eq(value, "WEBHOOKS_UPDATE") {
            Some(Event::WebhooksUpdate)
        } else {
            None
        }
    }
}

/// Decoding inverts encoding: every opcode comes back from its own number.
pub proof fn lemma_opcode_round_trip(op: OpCode)
    ensures
        opcode_of(opcode_value(op) as u64) == Some(op),
{
}

/// An opcode's wire number never collides with another opcode's.
pub proof fn lemma_opcode_value_injective(a: OpCode, b: OpCode)
    requires
        opcode_value(a) == opcode_value(b),
    ensures
        a == b,
{
}

/// Decoding inverts encoding: every event comes back from its own tag.
#[verifier::rlimit(60)]
pub proof fn lemma_event_round_trip(e: Event)
    ensures
        event_of(event_name(e)) == Some(e),
{
    reveal_strlit("HELLO");
    reveal_strlit("READY");
    reveal_strlit("RESUMED");
    reveal_strlit("INVALID_SESSION");
    reveal_strlit("CHANNEL_CREATE");
    reveal_strlit("CHANNEL_UPDATE");
    reveal_strlit("CHANNEL_DELETE");
    reveal_strlit("CHANNEL_PINS_UPDATE");
    reveal_strlit("GUILD_CREATE");
    reveal_strlit("GUILD_UPDATE");
    reveal_strlit("GUILD_DELETE");
    reveal_strlit("GUILD_BAN_ADD");
    reveal_strlit("GUILD_BAN_REMOVE");
    reveal_strlit("GUILD_EMOJIS_UPDATE");
    reveal_strlit("GUILD_INTEGRATIONS_UPDATE");
    reveal_strlit("GUILD_MEMBER_ADD");
    reveal_strlit("GUILD_MEMBER_REMOVE");
    reveal_strlit("GUILD_MEMBER_UPDATE");
    reveal_strlit("GUILD_MEMBERS_CHUNK");
    reveal_strlit("GUILD_ROLE_CREATE");
    reveal_strlit("GUILD_ROLE_UPDATE");
    reveal_strlit("GUILD_ROLE_DELETE");
    reveal_strlit("MESSAGE_CREATE");
    reveal_strlit("MESSAGE_UPDATE");
    reveal_strlit("MESSAGE_DELETE");
    reveal_strlit("MESSAGE_DELETE_BULK");
    reveal_strlit("MESSAGE_REACTION_ADD");
    reveal_strlit("MESSAGE_REACTION_REMOVE");
    reveal_strlit("MESSAGE_REACTION_REMOVE_ALL");
    reveal_strlit("PRESENCE_UPDATE");
    reveal_strlit("TYPING_START");
    reveal_strlit("USER_UPDATE");
    reveal_strlit("VOICE_STATE_UPDATE");
    reveal_strlit("VOICE_SERVER_UPDATE");
    reveal_strlit("WEBHOOKS_UPDATE");
    assert("HELLO"@.len() == 5);
    assert("READY"@.len() == 5);
    assert("RESUMED"@.len() == 7);
    assert("INVALID_SESSION"@.len() == 15);
    assert("CHANNEL_CREATE"@.len() == 14);
    assert("CHANNEL_UPDATE"@.len() == 14);
    assert("CHANNEL_DELETE"@.len() == 14);
    assert("CHANNEL_PINS_UPDATE"@.len() == 19);
    assert("GUILD_CREATE"@.len() == 12);
    assert("GUILD_UPDATE"@.len() == 12);
    assert("GUILD_DELETE"@.len() == 12);
    assert("GUILD_BAN_ADD"@.len() == 13);
    assert("GUILD_BAN_REMOVE"@.len() == 16);
    assert("GUILD_EMOJIS_UPDATE"@.len() == 19);
    assert("GUILD_INTEGRATIONS_UPDATE"@.len() == 25);
    assert("GUILD_MEMBER_ADD"@.len() == 16);
    assert("GUILD_MEMBER_REMOVE"@.len() == 19);
    assert("GUILD_MEMBER_UPDATE"@.len() == 19);
    assert("GUILD_MEMBERS_CHUNK"@.len() == 19);
    assert("GUILD_ROLE_CREATE"@.len() == 17);
    assert("GUILD_ROLE_UPDATE"@.len() == 17);
    assert("GUILD_ROLE_DELETE"@.len() == 17);
    assert("MESSAGE_CREATE"@.len() == 14);
    assert("MESSAGE_UPDATE"@.len() == 14);
    assert("MESSAGE_DELETE"@.len() == 14);
    assert("MESSAGE_DELETE_BULK"@.len() == 19);
    assert("MESSAGE_REACTION_ADD"@.len() == 20);
    assert("MESSAGE_REACTION_REMOVE"@.len() == 23);
    assert("MESSAGE_REACTION_REMOVE_ALL"@.len() == 27);
    assert("PRESENCE_UPDATE"@.len() == 15);
    assert("TYPING_START"@.len() == 12);
    assert("USER_UPDATE"@.len() == 11);
    assert("VOICE_STATE_UPDATE"@.len() == 18);
    assert("VOICE_SERVER_UPDATE"@.len() == 19);
    assert("WEBHOOKS_UPDATE"@.len() == 15);
    assert("HELLO"@[0] == 'H');
    assert("READY"@[0] == 'R');
    assert("GUILD_CREATE"@[6] == 'C');
    assert("GUILD_UPDATE"@[6] == 'U');
    assert("GUILD_DELETE"@[6] == 'D');
    assert("TYPING_START"@[6] == '_');
    assert("CHANNEL_CREATE"@[0] == 'C');
    assert("CHANNEL_CREATE"@[8] == 'C');
    assert("CHANNEL_UPDATE"@[0] == 'C');
    assert("CHANNEL_UPDATE"@[8] == 'U');
    assert("CHANNEL_DELETE"@[0] == 'C');
    assert("CHANNEL_DELETE"@[8] == 'D');
    assert("MESSAGE_CREATE"@[0] == 'M');
    assert("MESSAGE_CREATE"@[8] == 'C');
    assert("MESSAGE_UPDATE"@[0] == 'M');
    assert("MESSAGE_UPDATE"@[8] == 'U');
    assert("MESSAGE_DELETE"@[0] == 'M');
    assert("MESSAGE_DELETE"@[8] == 'D');
    assert("INVALID_SESSION"@[0] == 'I');
    assert("PRESENCE_UPDATE"@[0] == 'P');
    assert("WEBHOOKS_UPDATE"@[0] == 'W');
    assert("GUILD_BAN_REMOVE"@[6] == 'B');
    assert("GUILD_MEMBER_ADD"@[6] == 'M');
    assert("GUILD_ROLE_CREATE"@[11] == 'C');
    assert("GUILD_ROLE_UPDATE"@[11] == 'U');
    assert("GUILD_ROLE_DELETE"@[11] == 'D');
    assert("CHANNEL_PINS_UPDATE"@[8] == 'P');
    assert("CHANNEL_PINS_UPDATE"@[13] == 'U');
    assert("GUILD_EMOJIS_UPDATE"@[8] == 'O');
    assert("GUILD_EMOJIS_UPDATE"@[13] == 'U');
    assert("GUILD_MEMBER_REMOVE"@[8] == 'M');
    assert("GUILD_MEMBER_REMOVE"@[13] == 'R');
    assert("GUILD_MEMBER_UPDATE"@[8] == 'M');
    assert("GUILD_MEMBER_UPDATE"@[13] == 'U');
    assert("GUILD_MEMBERS_CHUNK"@[8] == 'M');
    assert("GUILD_MEMBERS_CHUNK"@[13] == '_');
    assert("MESSAGE_DELETE_BULK"@[8] == 'D');
    assert("MESSAGE_DELETE_BULK"@[13] == 'E');
    assert("VOICE_SERVER_UPDATE"@[8] == 'R');
    assert("VOICE_SERVER_UPDATE"@[13] == 'U');
}

/// Decoding inverts encoding: every status comes back from its own name.
pub proof fn lemma_status_round_trip(s: Status)
    ensures
        status_of(status_name(s)) == Some(s),
{
    reveal_strlit("online");
    reveal_strlit("dnd");
    reveal_strlit("idle");
    reveal_strlit("invisible");
    reveal_strlit("offline");
    assert("online"@.len() == 6);
    assert("dnd"@.len() == 3);
    assert("idle"@.len() == 4);
    assert("invisible"@.len() == 9);
    assert("offline"@.len() == 7);
}

/// User status.
#[derive(Debug, Clone, Copy, PartialEq, Eq, Structural)]
pub enum Status {
    Online,
    Dnd,
    Idle,
    Invisible,
    Offline,
}

/// The name a status has on the wire.
pub open spec fn status_name(s: Status) -> Seq<char> {
    match s {
        Status::Online => "online"@,
        Status::Dnd => "dnd"@,
        Status::Idle => "idle"@,
        Status::Invisible => "invisible"@,
        Status::Offline => "offline"@,
    }
}

/// The status a wire name stands for; `None` on every other name.
pub open spec fn status_of(s: Seq<char>) -> Option<Status> {
    if s == "online"@ {
        Some(Status::Online)
    } else if s == "dnd"@ {
        Some(Status::Dnd)
    } else if s == "idle"@ {
        Some(Status::Idle)
    } else if s == "invisible"@ {
        Some(Status::Invisible)
    } else if s == "offline"@ {
        Some(Status::Offline)
    } else {
        None
    }
}

impl Status {
    /// Encode the status as its wire name.
    pub fn as_name(&self) -> (r: String)
        ensures
            r@ == status_name(*self),
    {
        match self {
            Status::Online => String::from_str("online"),
            Status::Dnd => String::from_str("dnd"),
            Status::Idle => String::from_str("idle"),
            Status::Invisible => String::from_str("invisible"),
            Status::Offline => String::from_str("offline"),
        }
    }

    /// Decode a wire name; `None` exactly on the names no status has.
    pub fn try_from_name(value: &str) -> (r: Option<Status>)
        ensures
            r == status_of(value@),
    {
        if str_eq(value, "online") {
            Some(Status::Online)
        } else if str_eq(value, "dnd") {
            Some(Status::Dnd)
        } else if str_eq(value, "idle") {
            Some(Status::Idle)
        } else if str_eq(value, "invisible") {
            Some(Status::Invisible)
        } else if str_eq(value, "offline") {
            Some(Status::Offline)
        } else {
            None
        }
    }
}

/// Kind of a chat message.
#[derive(Debug, Clone, Copy, PartialEq, Eq, Structural)]
pub enum MessageType {
    Default,
    RecipientAdd,
    RecipientRemove,
    Call,
    ChannelNameChange,
    ChannelIconMessage,
    ChannelPinnedMessage,
    GuildMemberJoin,
}

/// The numeric value a message type has on the wire.
pub open spec fn message_type_value(t: MessageType) -> u8 {
    match t {
        MessageType::Default => 0,
        MessageType::RecipientAdd => 1,
        MessageType::RecipientRemove => 2,
        MessageType::Call => 3,
        MessageType::ChannelNameChange => 4,
        MessageType::ChannelIconMessage => 5,
        MessageType::ChannelPinnedMessage => 6,
        MessageType::GuildMemberJoin => 7,
    }
}

/// The message type a wire number stands for; `None` above `7`.
pub open spec fn message_type_of(value: u64) -> Option<MessageType> {
    if value == 0 {
        Some(MessageType::Default)
    } else if value == 1 {
        Some(MessageType::RecipientAdd)
    } else if value == 2 {
        Some(MessageType::RecipientRemove)
    } else if value == 3 {
        Some(MessageType::Call)
    } else if value == 4 {
        Some(MessageType::ChannelNameChange)
    } else if value == 5 {
        Some(MessageType::ChannelIconMessage)
    } else if value == 6 {
        Some(MessageType::ChannelPinnedMessage)
    } else if value == 7 {
        Some(MessageType::GuildMemberJoin)
    } else {
        None
    }
}

impl MessageType {
    /// Encode the message type as its wire number.
    pub fn as_u8(&self) -> (r: u8)
        ensures
            r == message_type_value(*self),
    {
        match self {
            MessageType::Default => 0,
            MessageType::RecipientAdd => 1,
            MessageType::RecipientRemove => 2,
            MessageType::Call => 3,
            MessageType::ChannelNameChange => 4,
            MessageType::ChannelIconMessage => 5,
            MessageType::ChannelPinnedMessage => 6,
            MessageType::GuildMemberJoin => 7,
        }
    }

    /// Decode a wire number; `None` exactly on the numbers no type has.
    pub fn try_from_u64(value: u64) -> (r: Option<MessageType>)
        ensures
            r == message_type_of(value),
    {
        if value == 0 {
            Some(MessageType::Default)
        } else if value == 1 {
            Some(MessageType::RecipientAdd)
        } else if value == 2 {
            Some(MessageType::RecipientRemove)
        } else if value == 3 {
            Some(MessageType::Call)
        } else if value == 4 {
            Some(MessageType::ChannelNameChange)
        } else if value == 5 {
            Some(MessageType::ChannelIconMessage)
        } else if value == 6 {
            Some(MessageType::ChannelPinnedMessage)
        } else if value == 7 {
            Some(MessageType::GuildMemberJoin)
        } else {
            None
        }
    }
}

/// Decoding inverts encoding: every message type comes back from its own
/// number.
pub proof fn lemma_message_type_round_trip(t: MessageType)
    ensures
        message_type_of(message_type_value(t) as u64) == Some(t),
{
}

/// Kind of activity a rich-presence message advertises.
#[derive(Debug, Clone, Copy, PartialEq, Eq, Structural)]
pub enum MessageActivityType {
    Join,
    Spectate,
    Listen,
    JoinRequest,
}

/// The numeric value an activity type has on the wire.
pub open spec fn message_activity_type_value(t: MessageActivityType) -> u8 {
    match t {
        MessageActivityType::Join => 1,
        MessageActivityType::Spectate => 2,
        MessageActivityType::Listen => 3,
        MessageActivityType::JoinRequest => 5,
    }
}

/// The activity type a wire number stands for; `4` is unassigned, and both
/// it and everything outside `1..=5` decode to `None`.
pub open spec fn message_activity_type_of(value: u64) -> Option<MessageActivityType> {
    if value == 1 {
        Some(MessageActivityType::Join)
    } else if value == 2 {
        Some(MessageActivityType::Spectate)
    } else if value == 3 {
        Some(MessageActivityType::Listen)
    } else if value == 5 {
        Some(MessageActivityType::JoinRequest)
    } else {
        None
    }
}

impl MessageActivityType {
    /// Encode the activity type as its wire number.
    pub fn as_u8(&self) -> (r: u8)
        ensures
            r == message_activity_type_value(*self),
    {
        match self {
            MessageActivityType::Join => 1,
            MessageActivityType::Spectate => 2,
            MessageActivityType::Listen => 3,
            MessageActivityType::JoinRequest => 5,
        }
    }

    /// Decode a wire number; `None` exactly on the numbers no type has.
    pub fn try_from_u64(value: u64) -> (r: Option<MessageActivityType>)
        ensures
            r == message_activity_type_of(value),
    {
        if value == 1 {
            Some(MessageActivityType::Join)
        } else if value == 2 {
            Some(MessageActivityType::Spectate)
        } else if value == 3 {
            Some(MessageActivityType::Listen)
        } else if value == 5 {
            Some(MessageActivityType::JoinRequest)
        } else {
            None
        }
    }
}

/// Decoding inverts encoding: every activity type comes back from its own
/// number.
pub proof fn lemma_message_activity_type_round_trip(t: MessageActivityType)
    ensures
        message_activity_type_of(message_activity_type_value(t) as u64) == Some(t),
{
}

/// An inbound envelope as the transport hands it over, before the opcode
/// and the event tag have been validated: the opcode as the raw wire
/// number, the event tag as the raw wire string, and only the presence of
/// the payload, whose decoding is directed by the engine.
#[derive(Debug)]
pub struct RawEnvelope {
    /// Opcode as transmitted
    pub op: u64,
    /// Whether the envelope carries a payload
    pub has_payload: bool,
    /// Sequence number, when the frame carries one
    pub s: Option<i64>,
    /// Event tag as transmitted
    pub t: Option<String>,
}

/// An outbound envelope.
#[derive(Debug)]
pub struct WrapperPacket {
    /// Opcode
    pub op: OpCode,
    /// Payload, if the frame carries one
    pub d: Option<OutboundPayload>,
    /// Sequence number; stamped with the latest inbound sequence when the
    /// frame is sent
    pub s: Option<i64>,
    /// Event tag
    pub t: Option<Event>,
}

/// Payload of an outbound envelope.
#[derive(Debug)]
pub enum OutboundPayload {
    /// The credentials and labels sent in response to Hello
    Identity(IdentityPacket),
}

/// First packet from the gateway: how often to heartbeat.
#[derive(Debug)]
pub struct HelloPacket {
    /// Heartbeat interval in milliseconds
    pub heartbeat_interval: u64,
    /// Tracing metadata from the gateway
    pub trace: Vec<String>,
}

/// Packet that authenticates the session.
#[derive(Debug)]
pub struct IdentityPacket {
    /// The secret token
    pub token: String,
    /// Fixed identification labels
    pub properties: IdentityPropertiesPacket,
    /// Whether this connection supports compression of packets
    pub compress: Option<bool>,
    /// Offline guild-member threshold
    pub large_threshold: Option<u64>,
    /// Shard coordinates, for large deployments
    pub shard: Option<Vec<u64>>,
    /// Initial presence
    pub presence: Option<UpdateStatusPacket>,
}

/// Identification labels sent with Identify.
#[derive(Debug)]
pub struct IdentityPropertiesPacket {
    /// Operating system label
    pub os: String,
    /// Library label
    pub browser: String,
    /// Device label
    pub device: String,
}

/// Presence update.
#[derive(Debug)]
pub struct UpdateStatusPacket {
    /// Unix time in milliseconds of when the client went idle, if it is idle
    pub since: Option<u64>,
    /// The user's new activity, if any
    pub game: Option<std::collections::HashMap<String, String>>,
    /// The user's new status
    pub status: Status,
    /// Whether or not the client is away from keyboard
    pub afk: bool,
}

/// Received when identification is completed.
#[derive(Debug)]
pub struct ReadyPacket {
    /// Protocol version
    pub v: u8,
    /// The identity the gateway resolved for this session
    pub user: UserPacket,
    /// Empty array (legacy support)
    pub private_channels: Vec<String>,
    /// Unavailable guilds
    pub guilds: Vec<UnavailableGuildPacket>,
    /// Session id for resuming the connection
    pub session_id: String,
    /// Tracing metadata from the gateway
    pub trace: Vec<String>,
    /// Shard coordinates
    pub shard: Option<Vec<u64>>,
}

/// A guild that is not available yet.
#[derive(Debug)]
pub struct UnavailableGuildPacket {
    /// Guild id
    pub id: Snowflake,
    /// Whether the guild is unavailable
    pub unavailable: bool,
}

/// A user.
#[derive(Debug)]
pub struct UserPacket {
    /// Id
    pub id: Snowflake,
    /// Username
    pub username: String,
    /// Discriminator (4-digit tag)
    pub discriminator: String,
    /// Avatar hash
    pub avatar: Option<String>,
    /// Bot flag
    pub bot: Option<bool>,
    /// Two-factor auth enabled flag
    pub mfa_enabled: Option<bool>,
    /// Locale
    pub locale: Option<String>,
    /// Verified flag
    pub verified: Option<bool>,
    /// Email
    pub email: Option<String>,
    /// User flags
    pub flags: Option<i64>,
    /// Premium kind
    pub premium_type: Option<i64>,
}

/// A chat message.
#[derive(Debug)]
pub struct MessagePacket {
    /// Id
    pub id: Snowflake,
    /// Id of the channel the message was sent in
    pub channel_id: Snowflake,
    /// Id of the guild the message was sent in
    pub guild_id: Snowflake,
    /// The author of this message
    pub author: UserPacket,
    /// Member properties for this message's author
    pub member: GuildMemberPacket,
    /// Contents of the message
    pub content: String,
    /// When this message was sent
    pub timestamp: String,
    /// When this message was edited, if ever
    pub edited_timestamp: Option<String>,
    /// Whether this was a text-to-speech message
    pub tts: bool,
    /// Whether this message mentions everyone
    pub mention_everyone: bool,
    /// Users specifically mentioned in this message
    pub mentions: Vec<UserPacket>,
    /// Roles specifically mentioned in this message
    pub mention_roles: Vec<RolePacket>,
    /// Any attached files
    pub attachments: Vec<AttachmentPacket>,
    /// Any embedded content
    pub embeds: Vec<EmbedPacket>,
    /// Reactions to the message
    pub reactions: Option<Vec<ReactionPacket>>,
    /// Used for validating that a message was sent
    pub nonce: Option<Snowflake>,
    /// Whether this message is pinned
    pub pinned: bool,
    /// If the message was generated by a webhook, the webhook's id
    pub webhook_id: Option<Snowflake>,
    /// Kind of message
    pub message_type: MessageType,
    /// Sent with rich-presence chat embeds
    pub activity: Option<MessageActivityPacket>,
    /// Sent with rich-presence chat embeds
    pub application: Option<MessageApplicationPacket>,
}

/// Membership of a user in a guild.
#[derive(Debug)]
pub struct GuildMemberPacket {
    /// The user this guild member represents
    pub user: Option<UserPacket>,
    /// The user's guild nickname
    pub nick: Option<String>,
    /// Ids of the member's roles
    pub roles: Vec<Snowflake>,
    /// When the user joined the guild
    pub joined_at: String,
    /// Whether the user is deafened in voice channels
    pub deaf: bool,
    /// Whether the user is muted in voice channels
    pub mute: bool,
}

/// A guild role.
#[derive(Debug)]
pub struct RolePacket {
    /// Id
    pub id: Snowflake,
    /// Role name
    pub name: String,
    /// Integer representation of the hexadecimal color code
    pub color: i64,
    /// Whether this role is pinned in the user listing
    pub hoist: bool,
    /// Position of this role
    pub position: i64,
    /// Permission bit set
    pub permissions: i64,
    /// Whether this role is managed by an integration
    pub managed: bool,
    /// Whether this role is mentionable
    pub mentionable: bool,
}

/// A file attached to a message.
#[derive(Debug)]
pub struct AttachmentPacket {
    /// Id
    pub id: Snowflake,
    /// Name of the attached file
    pub filename: String,
    /// Size of the file in bytes
    pub size: i64,
    /// Source url of the file
    pub url: String,
    /// A proxied url of the file
    pub proxy_url: String,
    /// Height of the file, if it is an image
    pub height: Option<i64>,
    /// Width of the file, if it is an image
    pub width: Option<i64>,
}

/// Embedded rich content.
#[derive(Debug)]
pub struct EmbedPacket {
    /// Title of the embed
    pub title: Option<String>,
    /// Kind of embed
    pub embed_type: Option<String>,
    /// Description of the embed
    pub description: Option<String>,
    /// Url of the embed
    pub url: Option<String>,
    /// Timestamp of the embed content
    pub timestamp: Option<String>,
    /// Color code of the embed
    pub color: Option<i64>,
    /// Footer information
    pub footer: Option<EmbedFooterPacket>,
    /// Image information
    pub image: Option<EmbedImagePacket>,
    /// Thumbnail information
    pub thumbnail: Option<EmbedThumbnailPacket>,
    /// Video information
    pub video: Option<EmbedVideoPacket>,
    /// Provider information
    pub provider: Option<EmbedProviderPacket>,
    /// Author information
    pub author: Option<EmbedAuthorPacket>,
    /// Fields information
    pub fields: Option<Vec<EmbedFieldPacket>>,
}

/// Footer of an embed.
#[derive(Debug)]
pub struct EmbedFooterPacket {
    /// Footer text
    pub text: String,
    /// Url of the footer icon
    pub icon_url: Option<String>,
    /// A proxied url of the footer icon
    pub proxy_icon_url: Option<String>,
}

/// Image of an embed.
#[derive(Debug)]
pub struct EmbedImagePacket {
    /// Source url of the image
    pub url: Option<String>,
    /// A proxied url of the image
    pub proxy_url: Option<String>,
    /// Height of the image
    pub height: Option<i64>,
    /// Width of the image
    pub width: Option<i64>,
}

/// Thumbnail of an embed.
#[derive(Debug)]
pub struct EmbedThumbnailPacket {
    /// Source url of the thumbnail
    pub url: Option<String>,
    /// A proxied url of the thumbnail
    pub proxy_url: Option<String>,
    /// Height of the thumbnail
    pub height: Option<i64>,
    /// Width of the thumbnail
    pub width: Option<i64>,
}

/// Video of an embed.
#[derive(Debug)]
pub struct EmbedVideoPacket {
    /// Source url of the video
    pub url: Option<String>,
    /// Height of the video
    pub height: Option<i64>,
    /// Width of the video
    pub width: Option<i64>,
}

/// Provider of an embed.
#[derive(Debug)]
pub struct EmbedProviderPacket {
    /// Name of the provider
    pub name: Option<String>,
    /// Url of the provider
    pub url: Option<String>,
}

/// Author of an embed.
#[derive(Debug)]
pub struct EmbedAuthorPacket {
    /// Name of the author
    pub name: Option<String>,
    /// Url of the author
    pub url: Option<String>,
    /// Url of the author icon
    pub icon_url: Option<String>,
    /// A proxied url of the author icon
    pub proxy_icon_url: Option<String>,
}

/// Field of an embed.
#[derive(Debug)]
pub struct EmbedFieldPacket {
    /// Name of the field
    pub name: String,
    /// Value of the field
    pub value: String,
    /// Whether or not this field displays inline
    pub inline: Option<bool>,
}

/// A reaction to a message.
#[derive(Debug)]
pub struct ReactionPacket {
    /// How many times this emoji has been used to react
    pub count: i64,
    /// Whether the current user reacted using this emoji
    pub me: bool,
    /// Emoji information
    pub emoji: EmojiPacket,
}

/// An emoji.
#[derive(Debug)]
pub struct EmojiPacket {
    /// Emoji id
    pub id: Snowflake,
    /// Emoji name
    pub name: String,
    /// Roles this emoji is whitelisted to
    pub roles: Option<Vec<Snowflake>>,
    /// User that created this emoji
    pub user: Option<UserPacket>,
    /// Whether this emoji must be wrapped in colons
    pub require_colons: Option<bool>,
    /// Whether this emoji is managed
    pub managed: Option<bool>,
    /// Whether this emoji is animated
    pub animated: Option<bool>,
}

/// Activity attached to a rich-presence message.
#[derive(Debug)]
pub struct MessageActivityPacket {
    /// Kind of message activity
    pub activity_type: MessageActivityType,
    /// Party id from the rich-presence event
    pub party_id: Option<String>,
}

/// Application attached to a rich-presence message.
#[derive(Debug)]
pub struct MessageApplicationPacket {
    /// Id of the application
    pub id: Snowflake,
    /// Id of the embed's image asset
    pub cover_image: Option<String>,
    /// Application description
    pub description: String,
    /// Id of the application's icon
    pub icon: String,
    /// Name of the application
    pub name: String,
}

/// Request body for creating a message of our own.
#[derive(Debug)]
pub struct MessageRequestPacket {
    /// Text content of the message
    pub content: Option<String>,
    /// Nonce that can be used for optimistic message sending
    pub nonce: Option<Snowflake>,
    /// Whether it is a text-to-speech message
    pub tts: bool,
    /// Content of a file being sent
    pub file: Option<Vec<u8>>,
    /// Embedded rich text
    pub embed: Option<EmbedPacket>,
    /// Extra body, already encoded
    pub payload_json: Option<String>,
}

impl MessageRequestPacket {
    /// A request that carries exactly the given text and nothing else.
    pub fn simple_text(text: &str) -> (r: Self)
        ensures
            r.content matches Some(c) && c@ == text@,
            r.nonce is None,
            !r.tts,
            r.file is None,
            r.embed is None,
            r.payload_json is None,
    {
        MessageRequestPacket {
            content: Some(String::from_str(text)),
            nonce: None,
            tts: false,
            file: None,
            embed: None,
            payload_json: None,
        }
    }
}

} // verus!

use gateway_engine::discord::{
    Event, MessageActivityType, MessageRequestPacket, MessageType, OpCode, Snowflake, Status,
};
use gateway_engine::text::{find_str, parse_u64, str_eq, u64_to_dec};

#[test]
fn opcode_round_trip_all() {
    let all = [
        OpCode::Dispatch,
        OpCode::Heartbeat,
        OpCode::Identify,
        OpCode::StatusUpdate,
        OpCode::VoiceStateUpdate,
        OpCode::Resume,
        OpCode::Reconnect,
        OpCode::RequestGuildMembers,
        OpCode::InvalidSession,
        OpCode::Hello,
        OpCode::HeartbeatACK,
    ];
    for op in all {
        let n = op.as_u8();
        assert_eq!(OpCode::try_from_u64(n as u64), Some(op));
    }
}

#[test]
fn opcode_known_values() {
    assert_eq!(OpCode::Dispatch.as_u8(), 0);
    assert_eq!(OpCode::Heartbeat.as_u8(), 1);
    assert_eq!(OpCode::Identify.as_u8(), 2);
    assert_eq!(OpCode::Hello.as_u8(), 10);
    assert_eq!(OpCode::HeartbeatACK.as_u8(), 11);
    assert_eq!(OpCode::try_from_u64(10), Some(OpCode::Hello));
}

#[test]
fn opcode_unknown_values() {
    assert_eq!(OpCode::try_from_u64(5), None);
    assert_eq!(OpCode::try_from_u64(12), None);
    assert_eq!(OpCode::try_from_u64(99), None);
}

#[test]
fn event_round_trip_some() {
    let some = [
        Event::Hello,
        Event::Ready,
        Event::MessageCreate,
        Event::GuildMemberRemove,
        Event::MessageReactionRemoveAll,
        Event::WebhooksUpdate,
    ];
    for e in some {
        let name = e.as_name();
        assert_eq!(Event::try_from_name(name.as_str()), Some(e));
    }
}

#[test]
fn event_known_names() {
    assert_eq!(Event::try_from_name("READY"), Some(Event::Ready));
    assert_eq!(Event::try_from_name("MESSAGE_CREATE"), Some(Event::MessageCreate));
    assert_eq!(Event::MessageCreate.as_name(), "MESSAGE_CREATE");
}

#[test]
fn event_unknown_names() {
    assert_eq!(Event::try_from_name(""), None);
    assert_eq!(Event::try_from_name("ready"), None);
    assert_eq!(Event::try_from_name("SOMETHING_ELSE"), None);
    assert_eq!(Event::try_from_name("MESSAGE_CREATED"), None);
}

#[test]
fn status_round_trip() {
    let all = [Status::Online, Status::Dnd, Status::Idle, Status::Invisible, Status::Offline];
    for s in all {
        let name = s.as_name();
        assert_eq!(Status::try_from_name(name.as_str()), Some(s));
    }
    assert_eq!(Status::try_from_name("busy"), None);
    assert_eq!(Status::Online.as_name(), "online");
}

#[test]
fn message_type_round_trip() {
    let all = [
        MessageType::Default,
        MessageType::RecipientAdd,
        MessageType::RecipientRemove,
        MessageType::Call,
        MessageType::ChannelNameChange,
        MessageType::ChannelIconMessage,
        MessageType::ChannelPinnedMessage,
        MessageType::GuildMemberJoin,
    ];
    for t in all {
        let n = t.as_u8();
        assert_eq!(MessageType::try_from_u64(n as u64), Some(t));
    }
    assert_eq!(MessageType::try_from_u64(8), None);
}

#[test]
fn message_activity_type_round_trip() {
    let all = [
        MessageActivityType::Join,
        MessageActivityType::Spectate,
        MessageActivityType::Listen,
        MessageActivityType::JoinRequest,
    ];
    for t in all {
        let n = t.as_u8();
        assert_eq!(MessageActivityType::try_from_u64(n as u64), Some(t));
    }
    assert_eq!(MessageActivityType::try_from_u64(0), None);
    assert_eq!(MessageActivityType::try_from_u64(4), None);
}

#[test]
fn str_eq_basics() {
    assert!(str_eq("", ""));
    assert!(str_eq("abc", "abc"));
    assert!(!str_eq("abc", "abd"));
    assert!(!str_eq("abc", "ab"));
    assert!(str_eq("héllo", "héllo"));
}

#[test]
fn find_str_first_occurrence() {
    assert_eq!(find_str("hello world", "world"), Some(6));
    assert_eq!(find_str("aaa", "aa"), Some(0));
    assert_eq!(find_str("hello", "xyz"), None);
    assert_eq!(find_str("hello", ""), Some(0));
    assert_eq!(find_str("ab", "abc"), None);
    assert_eq!(find_str("<@42> hi", "<@42>"), Some(0));
}

#[test]
fn u64_to_dec_exact() {
    assert_eq!(u64_to_dec(0), "0");
    assert_eq!(u64_to_dec(7), "7");
    assert_eq!(u64_to_dec(42), "42");
    assert_eq!(u64_to_dec(1000), "1000");
    assert_eq!(u64_to_dec(u64::MAX), "18446744073709551615");
}

#[test]
fn parse_u64_exact() {
    assert_eq!(parse_u64("0"), Some(0));
    assert_eq!(parse_u64("42"), Some(42));
    assert_eq!(parse_u64("007"), Some(7));
    assert_eq!(parse_u64("18446744073709551615"), Some(u64::MAX));
}

#[test]
fn parse_u64_rejects() {
    assert_eq!(parse_u64(""), None);
    assert_eq!(parse_u64("abc"), None);
    assert_eq!(parse_u64("12x"), None);
    assert_eq!(parse_u64("-1"), None);
    assert_eq!(parse_u64("18446744073709551616"), None);
}

#[test]
fn parse_inverts_rendering() {
    for n in [0u64, 1, 9, 10, 99, 12345, u64::MAX] {
        let s = u64_to_dec(n);
        assert_eq!(parse_u64(s.as_str()), Some(n));
    }
}

#[test]
fn snowflake_to_u64() {
    assert_eq!(Snowflake(String::from("42")).to_u64(), Some(42));
    assert_eq!(Snowflake(String::from("not a number")).to_u64(), None);
    assert_eq!(Snowflake(String::from("")).to_u64(), None);
}

#[test]
fn snowflake_equality() {
    let a = Snowflake(String::from("42"));
    let b = Snowflake(String::from("42"));
    let c = Snowflake(String::from("7"));
    assert!(a == b);
    assert!(a != c);
    assert!(a.clone() == a);
}

#[test]
fn simple_text_fields() {
    let p = MessageRequestPacket::simple_text("hi there");
    assert_eq!(p.content.as_deref(), Some("hi there"));
    assert!(p.nonce.is_none());
    assert!(!p.tts);
    assert!(p.file.is_none());
    assert!(p.embed.is_none());
    assert!(p.payload_json.is_none());
}

use gateway_engine::connector::HttpMethod;
use gateway_engine::discord::{
    AttachmentPacket, GuildMemberPacket, HelloPacket, MessagePacket, MessageType, OpCode,
    OutboundPayload, RawEnvelope, ReadyPacket, Snowflake, UserPacket,
};
use gateway_engine::engine::{Directive, Engine, SessionPhase, download_file_name};

fn user(id: &str) -> UserPacket {
    UserPacket {
        id: Snowflake(String::from(id)),
        username: String::from("someone"),
        discriminator: String::from("0001"),
        avatar: None,
        bot: None,
        mfa_enabled: None,
        locale: None,
        verified: None,
        email: None,
        flags: None,
        premium_type: None,
    }
}

fn message(author: &str, mentions: Vec<&str>, content: &str) -> MessagePacket {
    MessagePacket {
        id: Snowflake(String::from("100")),
        channel_id: Snowflake(String::from("555")),
        guild_id: Snowflake(String::from("900")),
        author: user(author),
        member: GuildMemberPacket {
            user: None,
            nick: None,
            roles: Vec::new(),
            joined_at: String::from("2019-01-01T00:00:00Z"),
            deaf: false,
            mute: false,
        },
        content: String::from(content),
        timestamp: String::from("2019-01-01T00:00:00Z"),
        edited_timestamp: None,
        tts: false,
        mention_everyone: false,
        mentions: mentions.into_iter().map(user).collect(),
        mention_roles: Vec::new(),
        attachments: Vec::new(),
        embeds: Vec::new(),
        reactions: None,
        nonce: None,
        pinned: false,
        webhook_id: None,
        message_type: MessageType::Default,
        activity: None,
        application: None,
    }
}

fn envelope(op: u64, has_payload: bool, s: Option<i64>, t: Option<&str>) -> RawEnvelope {
    RawEnvelope { op, has_payload, s, t: t.map(String::from) }
}

fn connected_engine(self_id: &str) -> Engine {
    let mut e = Engine::new(String::from("secret-token"));
    let (_identify, _interval) = e.hello(&HelloPacket {
        heartbeat_interval: 45000,
        trace: Vec::new(),
    });
    e.ready(ReadyPacket {
        v: 6,
        user: user(self_id),
        private_channels: Vec::new(),
        guilds: Vec::new(),
        session_id: String::from("sess"),
        trace: Vec::new(),
        shard: None,
    });
    e
}

#[test]
fn fresh_engine_awaits_hello() {
    let e = Engine::new(String::from("tok"));
    assert_eq!(e.phase, SessionPhase::AwaitingHello);
    assert!(e.sequence.is_none());
    assert!(e.myself_id.is_none());
    assert!(e.session_id.is_none());
    assert!(e.heartbeat_interval.is_none());
}

#[test]
fn hello_connects_and_emits_one_identify() {
    let mut e = Engine::new(String::from("secret-token"));
    let env = envelope(10, true, None, None);
    assert_eq!(e.on_message(&env), Directive::FetchHello);
    let (msg, interval) = e.hello(&HelloPacket { heartbeat_interval: 45000, trace: Vec::new() });
    assert_eq!(e.phase, SessionPhase::Connected);
    assert_eq!(e.heartbeat_interval, Some(45000));
    assert_eq!(interval, 45000);
    assert_eq!(msg.data.op, OpCode::Identify);
    assert!(msg.data.s.is_none());
    assert!(msg.data.t.is_none());
    match msg.data.d {
        Some(OutboundPayload::Identity(idp)) => {
            assert_eq!(idp.token, "secret-token");
            assert_eq!(idp.properties.os, "windows");
            assert_eq!(idp.properties.browser, "konno");
            assert_eq!(idp.properties.device, "konno");
            assert!(idp.compress.is_none());
            assert!(idp.large_threshold.is_none());
            assert!(idp.shard.is_none());
            assert!(idp.presence.is_none());
        }
        None => panic!("identify frame carried no payload"),
    }
}

#[test]
fn hello_without_payload_is_rejected() {
    let mut e = Engine::new(String::from("tok"));
    assert_eq!(e.on_message(&envelope(10, false, None, None)), Directive::Reject);
    assert_eq!(e.phase, SessionPhase::AwaitingHello);
}

#[test]
fn sequence_tracks_latest_carried() {
    let mut e = connected_engine("42");
    assert_eq!(e.on_message(&envelope(0, true, Some(1), Some("TYPING_START"))), Directive::Ignore);
    assert_eq!(e.sequence, Some(1));
    assert_eq!(e.on_message(&envelope(11, false, None, None)), Directive::Ack);
    assert_eq!(e.sequence, Some(1));
    assert_eq!(e.on_message(&envelope(0, true, Some(5), Some("PRESENCE_UPDATE"))), Directive::Ignore);
    assert_eq!(e.sequence, Some(5));
    // A frame that fails to decode updates nothing.
    assert_eq!(e.on_message(&envelope(99, true, Some(9), None)), Directive::Reject);
    assert_eq!(e.sequence, Some(5));
}

#[test]
fn unknown_opcode_is_dropped_session_stays_connected() {
    let mut e = connected_engine("42");
    let before_seq = e.sequence;
    assert_eq!(e.on_message(&envelope(99, true, Some(123), Some("READY"))), Directive::Reject);
    assert_eq!(e.phase, SessionPhase::Connected);
    assert_eq!(e.sequence, before_seq);
    assert!(e.myself_id.is_some());
}

#[test]
fn unknown_event_tag_is_dropped_session_stays_connected() {
    let mut e = connected_engine("42");
    assert_eq!(
        e.on_message(&envelope(0, true, Some(2), Some("SOMETHING_BRAND_NEW"))),
        Directive::Reject
    );
    assert_eq!(e.phase, SessionPhase::Connected);
    // The envelope itself decoded, so its sequence still counts.
    assert_eq!(e.sequence, Some(2));
}

#[test]
fn dispatch_without_tag_is_ignored() {
    let mut e = connected_engine("42");
    assert_eq!(e.on_message(&envelope(0, true, None, None)), Directive::Ignore);
}

#[test]
fn ready_resolves_identity() {
    let mut e = Engine::new(String::from("tok"));
    assert_eq!(e.on_message(&envelope(0, true, Some(1), Some("READY"))), Directive::FetchReady);
    e.ready(ReadyPacket {
        v: 6,
        user: user("42"),
        private_channels: Vec::new(),
        guilds: Vec::new(),
        session_id: String::from("sess"),
        trace: Vec::new(),
        shard: None,
    });
    assert_eq!(e.myself_id, Some(Snowflake(String::from("42"))));
}

#[test]
fn message_create_before_ready_is_ignored() {
    let mut e = Engine::new(String::from("tok"));
    assert_eq!(e.on_message(&envelope(0, true, None, Some("MESSAGE_CREATE"))), Directive::Ignore);
}

#[test]
fn message_create_after_ready_is_fetched() {
    let mut e = connected_engine("42");
    assert_eq!(
        e.on_message(&envelope(0, true, Some(3), Some("MESSAGE_CREATE"))),
        Directive::FetchMessage
    );
}

#[test]
fn heartbeat_ack_is_logged_only() {
    let mut e = connected_engine("42");
    assert_eq!(e.on_message(&envelope(11, false, None, None)), Directive::Ack);
    assert_eq!(e.phase, SessionPhase::Connected);
}

#[test]
fn other_known_opcodes_are_ignored() {
    let mut e = connected_engine("42");
    for op in [1u64, 7, 9] {
        assert_eq!(e.on_message(&envelope(op, false, None, None)), Directive::Ignore);
        assert_eq!(e.phase, SessionPhase::Connected);
    }
}

#[test]
fn close_ends_the_session() {
    let mut e = connected_engine("42");
    e.close();
    assert_eq!(e.phase, SessionPhase::Closed);
}

#[test]
fn mention_reply_exact() {
    let e = connected_engine("42");
    let msg = message("7", vec!["42"], "<@42> hello");
    let req = e.on_text_message(&msg).expect("a reply request");
    assert_eq!(req.method, HttpMethod::POST);
    assert_eq!(req.url, "/channels/555/messages");
    let body = req.data.expect("a body");
    assert_eq!(body.content.as_deref(), Some("<@7> hello"));
    assert!(body.nonce.is_none());
    assert!(!body.tts);
}

#[test]
fn own_message_gets_no_reply() {
    let e = connected_engine("42");
    let msg = message("42", vec!["42"], "<@42> hello");
    assert!(e.on_text_message(&msg).is_none());
}

#[test]
fn unmentioned_message_gets_no_reply() {
    let e = connected_engine("42");
    let msg = message("7", vec!["9"], "<@9> hello");
    assert!(e.on_text_message(&msg).is_none());
}

#[test]
fn listed_mention_missing_from_text_gets_no_reply() {
    let e = connected_engine("42");
    let msg = message("7", vec!["42"], "no token here");
    assert!(e.on_text_message(&msg).is_none());
}

#[test]
fn reply_uses_first_token_occurrence() {
    let e = connected_engine("42");
    let msg = message("7", vec!["42"], "a <@42> b <@42> c");
    let req = e.on_text_message(&msg).expect("a reply request");
    let body = req.data.expect("a body");
    assert_eq!(body.content.as_deref(), Some("<@7> b <@42> c"));
}

#[test]
fn mention_at_end_gives_bare_reply() {
    let e = connected_engine("42");
    let msg = message("7", vec!["42"], "ping <@42>");
    let req = e.on_text_message(&msg).expect("a reply request");
    let body = req.data.expect("a body");
    assert_eq!(body.content.as_deref(), Some("<@7>"));
}

#[test]
fn mention_after_unicode_text_is_still_found() {
    let e = connected_engine("42");
    let msg = message("7", vec!["42"], "héllo wörld <@42> goodbye");
    let req = e.on_text_message(&msg).expect("a reply request");
    let body = req.data.expect("a body");
    assert_eq!(body.content.as_deref(), Some("<@7> goodbye"));
}

#[test]
fn two_attachments_give_two_independent_downloads() {
    let e = connected_engine("42");
    let mut msg = message("7", vec![], "look at these");
    msg.attachments = vec![
        AttachmentPacket {
            id: Snowflake(String::from("1")),
            filename: String::from("a.png"),
            size: 10,
            url: String::from("https://cdn.example/a.png"),
            proxy_url: String::from("https://proxy.example/a.png"),
            height: None,
            width: None,
        },
        AttachmentPacket {
            id: Snowflake(String::from("2")),
            filename: String::from("b.png"),
            size: 20,
            url: String::from("https://cdn.example/b.png"),
            proxy_url: String::from("https://proxy.example/b.png"),
            height: None,
            width: None,
        },
    ];
    let downloads = e.inspect_file(&msg);
    assert_eq!(downloads.len(), 2);
    assert_eq!(downloads[0].url, "https://cdn.example/a.png");
    assert_eq!(downloads[0].filename, "a.png");
    assert_eq!(downloads[1].url, "https://cdn.example/b.png");
    assert_eq!(downloads[1].filename, "b.png");
    // The requests are independent: even when the first download fails,
    // the second still has everything needed to be written on its own.
    let failed_first = &downloads[0];
    let _ = failed_first;
    let written = download_file_name(1700000000000, downloads[1].filename.as_str());
    assert_eq!(written, "files/1700000000000_b.png");
}

#[test]
fn message_without_attachments_gives_no_downloads() {
    let e = connected_engine("42");
    let msg = message("7", vec![], "plain text");
    assert!(e.inspect_file(&msg).is_empty());
}

#[test]
fn download_names_carry_timestamp_prefix() {
    assert_eq!(download_file_name(0, "x.bin"), "files/0_x.bin");
    assert_eq!(download_file_name(42, "cat.png"), "files/42_cat.png");
}

//! The session engine: the state machine that consumes inbound envelopes
//! in arrival order, tracks the sequence number, directs payload decoding,
//! answers Hello with Identify, captures its own identity from Ready, and
//! turns chat messages into reply requests and download requests. The
//! engine only decides; the surrounding process performs the sends, the
//! waits and the downloads.

use vstd::prelude::*;
use vstd::string::*;

use crate::connector::{ClientMessage, HttpMethod, RequestMessage};
use crate::discord::{
    Event, HelloPacket, IdentityPacket, IdentityPropertiesPacket, MessagePacket,
    MessageRequestPacket, OpCode, OutboundPayload, RawEnvelope, ReadyPacket, Snowflake,
    UserPacket, WrapperPacket, event_of, opcode_of,
};
use crate::text::{dec_chars, find_str, match_at, u64_to_dec};

verus! {

/// Where the session stands: frames arrive only once the transport is
/// open, the first expected frame is Hello, and a close signal ends the
/// session for good.
#[derive(Debug, Clone, Copy, PartialEq, Eq, Structural)]
pub enum SessionPhase {
    /// Transport open, Hello not seen yet
    AwaitingHello,
    /// Identify sent, normal traffic
    Connected,
    /// The transport signalled close
    Closed,
}

/// What the engine asks of its caller for one inbound envelope.
#[derive(Debug, Clone, Copy, PartialEq, Eq, Structural)]
pub enum Directive {
    /// Decode the payload as a Hello packet and hand it to `hello`
    FetchHello,
    /// Decode the payload as a Ready packet and hand it to `ready`
    FetchReady,
    /// Decode the payload as a chat message and hand it to
    /// `on_text_message` and `inspect_file`
    FetchMessage,
    /// A heartbeat acknowledgment: log the liveness confirmation only
    Ack,
    /// Known but unhandled traffic: log at low severity and drop the frame
    Ignore,
    /// Decode failure: log as an error and drop the frame
    Reject,
}

/// One attachment to download: its source url and its original file name.
#[derive(Debug)]
pub struct DownloadRequest {
    /// Where the file is fetched from
    pub url: String,
    /// The name the attachment was posted under
    pub filename: String,
}

/// The session state. Mutated only from the inbound-frame path; the
/// heartbeat schedule and the spawned requests only read snapshots of it.
#[derive(Debug)]
pub struct Engine {
    /// The secret token presented in Identify
    pub token: String,
    /// Where the session stands
    pub phase: SessionPhase,
    /// Sequence number of the most recent frame that carried one
    pub sequence: Option<i64>,
    /// Session id, kept to be able to resume the connection
    pub session_id: Option<String>,
    /// Own identifier, resolved from the Ready event
    pub myself_id: Option<Snowflake>,
    /// Interval of the heartbeat schedule started on Hello
    pub heartbeat_interval: Option<u64>,
}

/// The sequence value after one envelope: a frame whose opcode decodes and
/// that carries a sequence number updates it; every other frame leaves it.
pub open spec fn step_sequence(sequence: Option<i64>, env: RawEnvelope) -> Option<i64> {
    if opcode_of(env.op) is Some && env.s is Some {
        env.s
    } else {
        sequence
    }
}

/// The directive for a Dispatch envelope: no event tag or an intentionally
/// unhandled one is dropped quietly, an unrecognized tag is a decode
/// failure, Ready and chat messages ask for their payloads — a chat
/// message only once our own identity is known — and a missing payload is
/// a decode failure.
pub open spec fn spec_dispatch(myself_known: bool, t: Option<String>, has_payload: bool) -> Directive {
    match t {
        None => Directive::Ignore,
        Some(name) => match event_of(name@) {
            None => Directive::Reject,
            Some(Event::Ready) => if has_payload {
                Directive::FetchReady
            } else {
                Directive::Reject
            },
            Some(Event::MessageCreate) => if !myself_known {
                Directive::Ignore
            } else if has_payload {
                Directive::FetchMessage
            } else {
                Directive::Reject
            },
            Some(_) => Directive::Ignore,
        },
    }
}

/// The directive for one inbound envelope: an unknown opcode number is a
/// decode failure, Hello asks for its payload, Dispatch goes through
/// `spec_dispatch`, a heartbeat acknowledgment is logged, and every other
/// recognized opcode is dropped quietly.
pub open spec fn spec_on_message(myself_known: bool, env: RawEnvelope) -> Directive {
    match opcode_of(env.op) {
        None => Directive::Reject,
        Some(op) => match op {
            OpCode::Hello => if env.has_payload {
                Directive::FetchHello
            } else {
                Directive::Reject
            },
            OpCode::Dispatch => spec_dispatch(myself_known, env.t, env.has_payload),
            OpCode::HeartbeatACK => Directive::Ack,
            _ => Directive::Ignore,
        },
    }
}

impl Engine {
    /// A fresh engine for one connection, awaiting Hello, knowing nothing
    /// but its token.
    pub fn new(token: String) -> (r: Self)
        ensures
            r.token@ == token@,
            r.phase == SessionPhase::AwaitingHello,
            r.sequence is None,
            r.session_id is None,
            r.myself_id is None,
            r.heartbeat_interval is None,
    {
        Engine {
            token,
            phase: SessionPhase::AwaitingHello,
            sequence: None,
            session_id: None,
            myself_id: None,
            heartbeat_interval: None,
        }
    }

    /// Consume one inbound envelope: update the sequence exactly as
    /// `step_sequence` says, change nothing else, and return the
    /// directive `spec_on_message` says. In particular a frame whose
    /// opcode number is unknown is rejected with the whole state — the
    /// phase included — unchanged.
    pub fn on_message(&mut self, env: &RawEnvelope) -> (r: Directive)
        ensures
            final(self).sequence == step_sequence(old(self).sequence, *env),
            final(self).token == old(self).token,
            final(self).phase == old(self).phase,
            final(self).session_id == old(self).session_id,
            final(self).myself_id == old(self).myself_id,
            final(self).heartbeat_interval == old(self).heartbeat_interval,
            r == spec_on_message(old(self).myself_id is Some, *env),
    {
        match OpCode::try_from_u64(env.op) {
            None => Directive::Reject,
            Some(op) => {
                if env.s.is_some() {
                    self.sequence = env.s;
                }
                match op {
                    OpCode::Hello => if env.has_payload {
                        Directive::FetchHello
                    } else {
                        Directive::Reject
                    },
                    OpCode::Dispatch => self.dispatch(&env.t, env.has_payload),
                    OpCode::HeartbeatACK => Directive::Ack,
                    _ => Directive::Ignore,
                }
            },
        }
    }

    /// The directive for a Dispatch envelope, given its raw event tag and
    /// whether it carries a payload.
    pub fn dispatch(&self, t: &Option<String>, has_payload: bool) -> (r: Directive)
        ensures
            r == spec_dispatch(self.myself_id is Some, *t, has_payload),
    {
        match t {
            None => Directive::Ignore,
            Some(name) => match Event::try_from_name(name.as_str()) {
                None => Directive::Reject,
                Some(Event::Ready) => if has_payload {
                    Directive::FetchReady
                } else {
                    Directive::Reject
                },
                Some(Event::MessageCreate) => {
                    if self.myself_id.is_none() {
                        Directive::Ignore
                    } else if has_payload {
                        Directive::FetchMessage
                    } else {
                        Directive::Reject
                    }
                },
                Some(_) => Directive::Ignore,
            },
        }
    }

    /// Answer Hello: move to `Connected`, record the heartbeat interval,
    /// and emit exactly one Identify frame carrying the configured token
    /// and the fixed identification labels, together with the interval the
    /// heartbeat schedule is to be started with.
    pub fn hello(&mut self, p: &HelloPacket) -> (r: (ClientMessage, u64))
        ensures
            final(self).phase == SessionPhase::Connected,
            final(self).heartbeat_interval == Some(p.heartbeat_interval),
            final(self).token == old(self).token,
            final(self).sequence == old(self).sequence,
            final(self).session_id == old(self).session_id,
            final(self).myself_id == old(self).myself_id,
            r.1 == p.heartbeat_interval,
            r.0.data.op == OpCode::Identify,
            r.0.data.s is None,
            r.0.data.t is None,
            r.0.data.d matches Some(OutboundPayload::Identity(idp)) && {
                &&& idp.token@ == old(self).token@
                &&& idp.properties.os@ == "windows"@
                &&& idp.properties.browser@ == "konno"@
                &&& idp.properties.device@ == "konno"@
                &&& idp.compress is None
                &&& idp.large_threshold is None
                &&& idp.shard is None
                &&& idp.presence is None
            },
    {
        let identity_packet = IdentityPacket {
            token: self.token.clone(),
            properties: IdentityPropertiesPacket {
                os: String::from_str("windows"),
                browser: String::from_str("konno"),
                device: String::from_str("konno"),
            },
            compress: None,
            large_threshold: None,
            shard: None,
            presence: None,
        };
        let hello_response = WrapperPacket {
            op: OpCode::Identify,
            d: Some(OutboundPayload::Identity(identity_packet)),
            s: None,
            t: None,
        };
        self.phase = SessionPhase::Connected;
        self.heartbeat_interval = Some(p.heartbeat_interval);
        (ClientMessage { data: hello_response }, p.heartbeat_interval)
    }

    /// Capture the identity the gateway resolved for this session.
    pub fn ready(&mut self, p: ReadyPacket)
        ensures
            final(self).myself_id matches Some(id) && id.0@ == p.user.id.0@,
            final(self).token == old(self).token,
            final(self).phase == old(self).phase,
            final(self).sequence == old(self).sequence,
            final(self).session_id == old(self).session_id,
            final(self).heartbeat_interval == old(self).heartbeat_interval,
    {
        self.myself_id = Some(p.user.id);
    }

    /// The transport signalled close: the session is over.
    pub fn close(&mut self)
        ensures
            final(self).phase == SessionPhase::Closed,
            final(self).token == old(self).token,
            final(self).sequence == old(self).sequence,
            final(self).session_id == old(self).session_id,
            final(self).myself_id == old(self).myself_id,
            final(self).heartbeat_interval == old(self).heartbeat_interval,
    {
        self.phase = SessionPhase::Closed;
    }
}

/// The canonical rendering of a mention of `id` inside message text.
pub open spec fn mention_token_of(id: Seq<char>) -> Seq<char> {
    "<@"@ + id + ">"@
}

/// Whether some listed mention carries exactly the identifier `id`.
pub open spec fn mentions_contain(mentions: Seq<UserPacket>, id: Seq<char>) -> bool {
    exists|i: int| 0 <= i < mentions.len() && mentions[i].id.0@ == id
}

/// Whether `token` occurs anywhere in `content`.
pub open spec fn has_token(content: Seq<char>, token: Seq<char>) -> bool {
    exists|i: int| match_at(content, token, i)
}

/// The create-message endpoint of a channel.
pub open spec fn channel_messages_url(channel: Seq<char>) -> Seq<char> {
    "/channels/"@ + channel + "/messages"@
}

/// The reply composed for a message: a mention of the author, followed by
/// everything in the content after the first occurrence of our own
/// mention token at position `i`.
pub open spec fn reply_text(author: Seq<char>, content: Seq<char>, token: Seq<char>, i: int) -> Seq<char> {
    mention_token_of(author) + content.subrange(i + token.len(), content.len() as int)
}

impl Engine {
    /// The reply rule for one chat message. No request is made when the
    /// message is our own, when we are not listed among its mentions, or
    /// when — despite the listing — our mention token is nowhere in its
    /// text. Otherwise exactly one create-message request for the
    /// message's channel is returned, whose body mentions the author and
    /// carries the text after the first occurrence of our token.
    pub fn on_text_message(&self, message_packet: &MessagePacket) -> (r: Option<RequestMessage>)
        requires
            self.myself_id is Some,
        ensures
            ({
                let myself = (self.myself_id->0).0@;
                let author = message_packet.author.id.0@;
                let content = message_packet.content@;
                let token = mention_token_of(myself);
                &&& (author == myself ==> r is None)
                &&& (!mentions_contain(message_packet.mentions@, myself) ==> r is None)
                &&& (!has_token(content, token) ==> r is None)
                &&& (author != myself && mentions_contain(message_packet.mentions@, myself)
                    && has_token(content, token) ==> (r matches Some(req) && {
                    &&& req.method == HttpMethod::POST
                    &&& req.url@ == channel_messages_url(message_packet.channel_id.0@)
                    &&& req.data matches Some(body) && {
                        &&& body.content matches Some(c) && (exists|i: int|
                            {
                                &&& match_at(content, token, i)
                                &&& (forall|j: int| 0 <= j < i ==> !match_at(content, token, j))
                                &&& c@ == reply_text(author, content, token, i)
                            })
                        &&& body.nonce is None
                        &&& !body.tts
                        &&& body.file is None
                        &&& body.embed is None
                        &&& body.payload_json is None
                    }
                }))
            }),
    {
        let myself = self.myself_id.as_ref().unwrap();
        let author = &message_packet.author.id;

        if author.eq(myself) {
            return None;
        }

        let mut was_mentioned = false;
        let mut i: usize = 0;
        let mentions_len = message_packet.mentions.len();
        while i < mentions_len
            invariant
                i <= mentions_len,
                mentions_len == message_packet.mentions@.len(),
                self.myself_id is Some,
                myself == &self.myself_id->0,
                was_mentioned ==> mentions_contain(message_packet.mentions@, myself.0@),
                !was_mentioned ==> forall|j: int| 0 <= j < i
                    ==> message_packet.mentions@[j].id.0@ != myself.0@,
            decreases mentions_len - i,
        {
            if message_packet.mentions[i].id.eq(myself) {
                was_mentioned = true;
            }
            i = i + 1;
        }
        if !was_mentioned {
            return None;
        }

        let mut my_mention = String::from_str("<@");
        my_mention.append(myself.0.as_str());
        my_mention.append(">");
        proof {
            assert(my_mention@ =~= mention_token_of(myself.0@));
        }

        let content = message_packet.content.as_str();
        let mention_index = find_str(content, my_mention.as_str());
        match mention_index {
            None => None,
            Some(idx) => {
                let token_len = my_mention.as_str().unicode_len();
                let content_len = content.unicode_len();
                let rest = content.substring_char(idx + token_len, content_len);

                // The reply keeps the rest of the content verbatim: the
                // separating blank is already its first character when
                // the sender wrote one.
                let mut reply = String::from_str("<@");
                reply.append(author.0.as_str());
                reply.append(">");
                reply.append(rest);

                let mut url = String::from_str("/channels/");
                url.append(message_packet.channel_id.0.as_str());
                url.append("/messages");
                proof {
                    assert(url@ =~= channel_messages_url(message_packet.channel_id.0@));
                    assert(reply@ =~= reply_text(
                        message_packet.author.id.0@,
                        message_packet.content@,
                        my_mention@,
                        idx as int,
                    ));
                }

                Some(RequestMessage {
                    method: HttpMethod::POST,
                    url,
                    data: Some(MessageRequestPacket::simple_text(reply.as_str())),
                })
            },
        }
    }

    /// One download request per attachment, in order, each carrying that
    /// attachment's url and original file name; a message with two
    /// attachments yields exactly two, and each is performed on its own.
    pub fn inspect_file(&self, message_packet: &MessagePacket) -> (r: Vec<DownloadRequest>)
        ensures
            r@.len() == message_packet.attachments@.len(),
            forall|i: int| 0 <= i < r@.len() ==> {
                &&& (#[trigger] r@[i]).url@ == message_packet.attachments@[i].url@
                &&& r@[i].filename@ == message_packet.attachments@[i].filename@
            },
    {
        let mut out: Vec<DownloadRequest> = Vec::new();
        let n = message_packet.attachments.len();
        let mut i: usize = 0;
        while i < n
            invariant
                i <= n,
                n == message_packet.attachments@.len(),
                out@.len() == i,
                forall|j: int| 0 <= j < i ==> {
                    &&& (#[trigger] out@[j]).url@ == message_packet.attachments@[j].url@
                    &&& out@[j].filename@ == message_packet.attachments@[j].filename@
                },
            decreases n - i,
        {
            let att = &message_packet.attachments[i];
            out.push(DownloadRequest { url: att.url.clone(), filename: att.filename.clone() });
            i = i + 1;
        }
        out
    }
}

/// The local name a downloaded attachment is stored under: the capture
/// timestamp, then the original file name, so that two captures of the
/// same name cannot collide.
pub fn download_file_name(timestamp: u64, name: &str) -> (r: String)
    ensures
        r@ == "files/"@ + dec_chars(timestamp) + "_"@ + name@,
{
    let mut r = String::from_str("files/");
    let ts = u64_to_dec(timestamp);
    r.append(ts.as_str());
    r.append("_");
    r.append(name);
    r
}

/// The sequence value after a whole run of envelopes, processed in
/// arrival order.
pub open spec fn sequence_after(init: Option<i64>, frames: Seq<RawEnvelope>) -> Option<i64>
    decreases frames.len(),
{
    if frames.len() == 0 {
        init
    } else {
        step_sequence(sequence_after(init, frames.drop_last()), frames.last())
    }
}

/// The sequence number carried by the latest frame of the run that both
/// decoded and carried one; the initial value where no frame did.
pub open spec fn last_carried(init: Option<i64>, frames: Seq<RawEnvelope>) -> Option<i64>
    decreases frames.len(),
{
    if frames.len() == 0 {
        init
    } else if opcode_of(frames.last().op) is Some && frames.last().s is Some {
        frames.last().s
    } else {
        last_carried(init, frames.drop_last())
    }
}

/// Sequence-tracking law: after any run of inbound envelopes, the
/// engine's sequence equals the sequence value of the most recently
/// processed frame that carried one.
pub proof fn lemma_sequence_tracks_last(init: Option<i64>, frames: Seq<RawEnvelope>)
    ensures
        sequence_after(init, frames) == last_carried(init, frames),
    decreases frames.len(),
{
    if frames.len() > 0 {
        lemma_sequence_tracks_last(init, frames.drop_last());
    }
}

/// Hello-routing law: a Hello envelope that carries its payload always
/// directs the caller to `hello`, whatever the session knows — so every
/// valid Hello frame leads to the `Connected` transition and the one
/// Identify emission that `hello` guarantees.
pub proof fn lemma_hello_directed(myself_known: bool, env: RawEnvelope)
    requires
        opcode_of(env.op) == Some(OpCode::Hello),
        env.has_payload,
    ensures
        spec_on_message(myself_known, env) == Directive::FetchHello,
{
}

/// Unknown-opcode law: an envelope whose opcode number decodes to nothing
/// is rejected and changes nothing — the sequence value included.
pub proof fn lemma_unknown_opcode_rejected(myself_known: bool, sequence: Option<i64>, env: RawEnvelope)
    requires
        opcode_of(env.op) is None,
    ensures
        spec_on_message(myself_known, env) == Directive::Reject,
        step_sequence(sequence, env) == sequence,
{
}

/// Unknown-event law: a Dispatch envelope with an unrecognized event tag
/// is rejected — no payload is fetched, so no handler runs.
pub proof fn lemma_unknown_event_rejected(myself_known: bool, env: RawEnvelope)
    requires
        opcode_of(env.op) == Some(OpCode::Dispatch),
        env.t matches Some(name) && event_of(name@) is None,
    ensures
        spec_on_message(myself_known, env) == Directive::Reject,
{
}

} // verus!

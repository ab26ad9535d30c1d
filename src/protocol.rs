//! The wire protocol: the tagged envelope that the server sends, its
//! decoding from JSON text, and the frames that the client sends.
use vstd::prelude::*;
use crate::json::{JsonValue, lookup, find_member, json_parse, parse_json, json_quote, json_quoted};

verus! {

/// A participant's identity record.
#[derive(Debug, Clone)]
pub struct DiscordUser {
    pub id: String,
    pub username: String,
    pub discriminator: String,
    pub global_name: Option<String>,
    pub avatar: Option<String>,
    pub accent_color: Option<i32>,
}

pub struct UserModel {
    pub id: Seq<char>,
    pub username: Seq<char>,
    pub discriminator: Seq<char>,
    pub global_name: Option<Seq<char>>,
    pub avatar: Option<Seq<char>>,
    pub accent_color: Option<i32>,
}

pub open spec fn opt_view(o: Option<String>) -> Option<Seq<char>> {
    match o {
        Some(s) => Some(s@),
        None => None,
    }
}

impl View for DiscordUser {
    type V = UserModel;

    open spec fn view(&self) -> UserModel {
        UserModel {
            id: self.id@,
            username: self.username@,
            discriminator: self.discriminator@,
            global_name: opt_view(self.global_name),
            avatar: opt_view(self.avatar),
            accent_color: self.accent_color,
        }
    }
}

/// A chat message: who wrote it and what it says.
#[derive(Debug, Clone)]
pub struct ChatMessage {
    pub author: String,
    pub content: String,
}

pub struct MessageModel {
    pub author: Seq<char>,
    pub content: Seq<char>,
}

impl View for ChatMessage {
    type V = MessageModel;

    open spec fn view(&self) -> MessageModel {
        MessageModel { author: self.author@, content: self.content@ }
    }
}

/// The tokens of a signed-in user together with their identity.
#[derive(Debug, Clone)]
pub struct UserSession {
    pub access_token: String,
    pub refresh_token: String,
    pub session: DiscordUser,
}

/// A message from the server: a tag and the payload that goes with it.
/// The roster of `ConnectedUsers` maps participant ids to participants, each
/// id at most once.
#[derive(Debug, Clone)]
pub enum Envelope {
    Session(DiscordUser),
    ConnectedUsers(Vec<(String, DiscordUser)>),
    Message(ChatMessage),
    Disconnect(String),
}

pub enum EnvelopeModel {
    Session(UserModel),
    ConnectedUsers(Seq<(Seq<char>, UserModel)>),
    Message(MessageModel),
    Disconnect(Seq<char>),
}

pub open spec fn roster_view(r: Seq<(String, DiscordUser)>) -> Seq<(Seq<char>, UserModel)> {
    r.map_values(|p: (String, DiscordUser)| (p.0@, p.1@))
}

impl View for Envelope {
    type V = EnvelopeModel;

    open spec fn view(&self) -> EnvelopeModel {
        match self {
            Envelope::Session(u) => EnvelopeModel::Session(u@),
            Envelope::ConnectedUsers(r) => EnvelopeModel::ConnectedUsers(roster_view(r@)),
            Envelope::Message(m) => EnvelopeModel::Message(m@),
            Envelope::Disconnect(s) => EnvelopeModel::Disconnect(s@),
        }
    }
}

pub open spec fn has_key(r: Seq<(Seq<char>, UserModel)>, k: Seq<char>) -> bool {
    exists|j: int| 0 <= j < r.len() && r[j].0 == k
}

pub open spec fn keys_distinct(r: Seq<(Seq<char>, UserModel)>) -> bool {
    forall|i: int, j: int| 0 <= i < j < r.len() ==> r[i].0 != r[j].0
}

impl EnvelopeModel {
    /// A roster holds each participant id at most once.
    pub open spec fn wf(self) -> bool {
        match self {
            EnvelopeModel::ConnectedUsers(r) => keys_distinct(r),
            _ => true,
        }
    }
}

/// Why a frame's text is not an envelope.
#[derive(Debug, Clone, Copy, PartialEq, Eq, Structural)]
pub enum DecodeError {
    /// Not JSON, not an object, no string tag, or a payload of the wrong shape.
    Malformed,
    /// A string tag that names none of the envelope's variants.
    UnknownVariant,
}

#[derive(Debug, Clone, Copy, PartialEq, Eq, Structural)]
pub enum Tag {
    Session,
    ConnectedUsers,
    Message,
    Disconnect,
}

pub open spec fn tag_of(t: Seq<char>) -> Option<Tag> {
    if t == "Session"@ {
        Some(Tag::Session)
    } else if t == "ConnectedUsers"@ {
        Some(Tag::ConnectedUsers)
    } else if t == "Message"@ {
        Some(Tag::Message)
    } else if t == "Disconnect"@ {
        Some(Tag::Disconnect)
    } else {
        None
    }
}

/// A required string member.
pub open spec fn required_text(v: Option<JsonValue>) -> Option<Seq<char>> {
    match v {
        Some(JsonValue::Str(s)) => Some(s@),
        _ => None,
    }
}

/// An optional string member: absent or null is `None`; `None` at the top
/// level means the member has the wrong type.
pub open spec fn optional_text(v: Option<JsonValue>) -> Option<Option<Seq<char>>> {
    match v {
        None => Some(None),
        Some(JsonValue::Null) => Some(None),
        Some(JsonValue::Str(s)) => Some(Some(s@)),
        _ => None,
    }
}

/// An optional 32-bit integer member, read as `optional_text` reads text.
pub open spec fn optional_i32(v: Option<JsonValue>) -> Option<Option<i32>> {
    match v {
        None => Some(None),
        Some(JsonValue::Null) => Some(None),
        Some(JsonValue::Number(Some(n))) => if i32::MIN <= n <= i32::MAX {
            Some(Some(n as i32))
        } else {
            None
        },
        _ => None,
    }
}

/// The participant that a JSON value describes; members not listed are ignored.
pub open spec fn user_model(v: JsonValue) -> Option<UserModel> {
    match v {
        JsonValue::Object(m) => {
            let id = required_text(lookup(m@, "id"@));
            let username = required_text(lookup(m@, "username"@));
            let discriminator = required_text(lookup(m@, "discriminator"@));
            let global_name = optional_text(lookup(m@, "global_name"@));
            let avatar = optional_text(lookup(m@, "avatar"@));
            let accent_color = optional_i32(lookup(m@, "accent_color"@));
            if id is Some && username is Some && discriminator is Some && global_name is Some
                && avatar is Some && accent_color is Some {
                Some(
                    UserModel {
                        id: id.unwrap(),
                        username: username.unwrap(),
                        discriminator: discriminator.unwrap(),
                        global_name: global_name.unwrap(),
                        avatar: avatar.unwrap(),
                        accent_color: accent_color.unwrap(),
                    },
                )
            } else {
                None
            }
        },
        _ => None,
    }
}

/// The chat message that a JSON value describes.
pub open spec fn message_model(v: JsonValue) -> Option<MessageModel> {
    match v {
        JsonValue::Object(m) => {
            let author = required_text(lookup(m@, "author"@));
            let content = required_text(lookup(m@, "content"@));
            if author is Some && content is Some {
                Some(MessageModel { author: author.unwrap(), content: content.unwrap() })
            } else {
                None
            }
        },
        _ => None,
    }
}

/// The roster that the members of a JSON object describe, in member order;
/// `None` where a member is not a participant or an id repeats.
pub open spec fn roster_model(m: Seq<(String, JsonValue)>) -> Option<Seq<(Seq<char>, UserModel)>>
    decreases m.len(),
{
    if m.len() == 0 {
        Some(Seq::empty())
    } else {
        match roster_model(m.drop_last()) {
            None => None,
            Some(r) => match user_model(m.last().1) {
                None => None,
                Some(u) => if has_key(r, m.last().0@) {
                    None
                } else {
                    Some(r.push((m.last().0@, u)))
                },
            },
        }
    }
}

pub open spec fn payload_model(tag: Tag, d: JsonValue) -> Option<EnvelopeModel> {
    match tag {
        Tag::Session => match user_model(d) {
            Some(u) => Some(EnvelopeModel::Session(u)),
            None => None,
        },
        Tag::ConnectedUsers => match d {
            JsonValue::Object(m) => match roster_model(m@) {
                Some(r) => Some(EnvelopeModel::ConnectedUsers(r)),
                None => None,
            },
            _ => None,
        },
        Tag::Message => match message_model(d) {
            Some(c) => Some(EnvelopeModel::Message(c)),
            None => None,
        },
        Tag::Disconnect => match d {
            JsonValue::Str(s) => Some(EnvelopeModel::Disconnect(s@)),
            _ => None,
        },
    }
}

/// What a JSON value decodes to: an object whose "type" member names the
/// variant and whose "data" member holds its payload.
pub open spec fn decode_model(v: JsonValue) -> Result<EnvelopeModel, DecodeError> {
    match v {
        JsonValue::Object(m) => match lookup(m@, "type"@) {
            Some(JsonValue::Str(t)) => match tag_of(t@) {
                None => Err(DecodeError::UnknownVariant),
                Some(tag) => match lookup(m@, "data"@) {
                    None => Err(DecodeError::Malformed),
                    Some(d) => match payload_model(tag, d) {
                        Some(e) => Ok(e),
                        None => Err(DecodeError::Malformed),
                    },
                },
            },
            _ => Err(DecodeError::Malformed),
        },
        _ => Err(DecodeError::Malformed),
    }
}

/// What a frame's text decodes to.
pub open spec fn decode_text(t: Seq<char>) -> Result<EnvelopeModel, DecodeError> {
    match json_parse(t) {
        None => Err(DecodeError::Malformed),
        Some(v) => decode_model(v),
    }
}

pub open spec fn result_model(r: Result<Envelope, DecodeError>) -> Result<EnvelopeModel, DecodeError> {
    match r {
        Ok(e) => Ok(e@),
        Err(x) => Err(x),
    }
}

fn text_member(m: &Vec<(String, JsonValue)>, key: &str) -> (r: Option<String>)
    ensures
        opt_view(r) == required_text(lookup(m@, key@)),
{
    match find_member(m, key) {
        None => None,
        Some(i) => match &m[i].1 {
            JsonValue::Str(s) => Some(s.clone()),
            _ => None,
        },
    }
}

fn optional_text_member(m: &Vec<(String, JsonValue)>, key: &str) -> (r: Option<Option<String>>)
    ensures
        match (r, optional_text(lookup(m@, key@))) {
            (Some(x), Some(y)) => opt_view(x) == y,
            (None, None) => true,
            _ => false,
        },
{
    match find_member(m, key) {
        None => Some(None),
        Some(i) => match &m[i].1 {
            JsonValue::Null => Some(None),
            JsonValue::Str(s) => Some(Some(s.clone())),
            _ => None,
        },
    }
}

fn optional_i32_member(m: &Vec<(String, JsonValue)>, key: &str) -> (r: Option<Option<i32>>)
    ensures
        r == optional_i32(lookup(m@, key@)),
{
    match find_member(m, key) {
        None => Some(None),
        Some(i) => match &m[i].1 {
            JsonValue::Null => Some(None),
            JsonValue::Number(Some(n)) => if i32::MIN as i64 <= *n && *n <= i32::MAX as i64 {
                Some(Some(*n as i32))
            } else {
                None
            },
            _ => None,
        },
    }
}

/// Reads a participant from a JSON value.
pub fn decode_user(v: &JsonValue) -> (r: Option<DiscordUser>)
    ensures
        match r {
            Some(u) => user_model(*v) == Some(u@),
            None => user_model(*v) is None,
        },
{
    match v {
        JsonValue::Object(m) => {
            let id = text_member(m, "id");
            let username = text_member(m, "username");
            let discriminator = text_member(m, "discriminator");
            let global_name = optional_text_member(m, "global_name");
            let avatar = optional_text_member(m, "avatar");
            let accent_color = optional_i32_member(m, "accent_color");
            match (id, username, discriminator, global_name, avatar, accent_color) {
                (Some(id), Some(username), Some(discriminator), Some(global_name), Some(avatar), Some(accent_color)) => {
                    Some(DiscordUser { id, username, discriminator, global_name, avatar, accent_color })
                },
                _ => None,
            }
        },
        _ => None,
    }
}

/// Reads a chat message from a JSON value.
pub fn decode_chat_message(v: &JsonValue) -> (r: Option<ChatMessage>)
    ensures
        match r {
            Some(c) => message_model(*v) == Some(c@),
            None => message_model(*v) is None,
        },
{
    match v {
        JsonValue::Object(m) => {
            let author = text_member(m, "author");
            let content = text_member(m, "content");
            match (author, content) {
                (Some(author), Some(content)) => Some(ChatMessage { author, content }),
                _ => None,
            }
        },
        _ => None,
    }
}

proof fn lemma_roster_prefix_fails(m: Seq<(String, JsonValue)>, i: int)
    requires
        0 <= i <= m.len(),
        roster_model(m.take(i)) is None,
    ensures
        roster_model(m) is None,
    decreases m.len() - i,
{
    if i == m.len() {
        assert(m.take(i) =~= m);
    } else {
        assert(m.take(i + 1).drop_last() =~= m.take(i));
        lemma_roster_prefix_fails(m, i + 1);
    }
}

/// Reads a roster from the members of a JSON object.
pub fn decode_roster(m: &Vec<(String, JsonValue)>) -> (r: Option<Vec<(String, DiscordUser)>>)
    ensures
        match r {
            Some(x) => roster_model(m@) == Some(roster_view(x@)),
            None => roster_model(m@) is None,
        },
{
    let mut out: Vec<(String, DiscordUser)> = Vec::new();
    let mut i: usize = 0;
    assert(roster_view(out@) =~= Seq::empty());
    while i < m.len()
        invariant
            i <= m@.len(),
            roster_model(m@.take(i as int)) == Some(roster_view(out@)),
        decreases m@.len() - i,
    {
        proof {
            assert(m@.take(i + 1).drop_last() =~= m@.take(i as int));
            assert(m@.take(i + 1).last() == m@[i as int]);
        }
        let user = match decode_user(&m[i].1) {
            Some(u) => u,
            None => {
                proof {
                    lemma_roster_prefix_fails(m@, i + 1);
                }
                return None;
            },
        };
        let mut j: usize = 0;
        while j < out.len()
            invariant
                i < m@.len(),
                j <= out@.len(),
                roster_model(m@.take(i as int)) == Some(roster_view(out@)),
                m@.take(i + 1).drop_last() =~= m@.take(i as int),
                m@.take(i + 1).last() == m@[i as int],
                user_model(m@[i as int].1) == Some(user@),
                forall|k: int| 0 <= k < j ==> roster_view(out@)[k].0 != m@[i as int].0@,
            decreases out@.len() - j,
        {
            if out[j].0 == m[i].0 {
                proof {
                    assert(roster_view(out@)[j as int].0 == m@[i as int].0@);
                    lemma_roster_prefix_fails(m@, i + 1);
                }
                return None;
            }
            j = j + 1;
        }
        let key = m[i].0.clone();
        let ghost before = out@;
        out.push((key, user));
        proof {
            assert(!has_key(roster_view(before), m@[i as int].0@));
            assert(roster_view(out@) =~= roster_view(before).push((m@[i as int].0@, user@)));
        }
        i = i + 1;
    }
    assert(m@.take(m@.len() as int) =~= m@);
    Some(out)
}

fn tag_from(t: &String) -> (r: Option<Tag>)
    ensures
        r == tag_of(t@),
{
    if *t == String::from_str("Session") {
        Some(Tag::Session)
    } else if *t == String::from_str("ConnectedUsers") {
        Some(Tag::ConnectedUsers)
    } else if *t == String::from_str("Message") {
        Some(Tag::Message)
    } else if *t == String::from_str("Disconnect") {
        Some(Tag::Disconnect)
    } else {
        None
    }
}

fn decode_payload(tag: Tag, d: &JsonValue) -> (r: Option<Envelope>)
    ensures
        match r {
            Some(e) => payload_model(tag, *d) == Some(e@),
            None => payload_model(tag, *d) is None,
        },
{
    match tag {
        Tag::Session => match decode_user(d) {
            Some(u) => Some(Envelope::Session(u)),
            None => None,
        },
        Tag::ConnectedUsers => match d {
            JsonValue::Object(m) => match decode_roster(m) {
                Some(r) => Some(Envelope::ConnectedUsers(r)),
                None => None,
            },
            _ => None,
        },
        Tag::Message => match decode_chat_message(d) {
            Some(c) => Some(Envelope::Message(c)),
            None => None,
        },
        Tag::Disconnect => match d {
            JsonValue::Str(s) => Some(Envelope::Disconnect(s.clone())),
            _ => None,
        },
    }
}

/// Decodes a parsed JSON value into an envelope.
pub fn decode_value(v: &JsonValue) -> (r: Result<Envelope, DecodeError>)
    ensures
        result_model(r) == decode_model(*v),
{
    match v {
        JsonValue::Object(m) => {
            let t = match find_member(m, "type") {
                Some(i) => match &m[i].1 {
                    JsonValue::Str(t) => t,
                    _ => return Err(DecodeError::Malformed),
                },
                None => return Err(DecodeError::Malformed),
            };
            let tag = match tag_from(t) {
                Some(tag) => tag,
                None => return Err(DecodeError::UnknownVariant),
            };
            match find_member(m, "data") {
                None => Err(DecodeError::Malformed),
                Some(i) => match decode_payload(tag, &m[i].1) {
                    Some(e) => Ok(e),
                    None => Err(DecodeError::Malformed),
                },
            }
        },
        _ => Err(DecodeError::Malformed),
    }
}

/// Decodes the text of an inbound frame. Text that is not JSON is
/// `Malformed`; decoding has no other effect.
pub fn decode(frame_text: &str) -> (r: Result<Envelope, DecodeError>)
    ensures
        result_model(r) == decode_text(frame_text@),
        json_parse(frame_text@) is None ==> r == Err::<Envelope, DecodeError>(DecodeError::Malformed),
{
    match parse_json(frame_text) {
        None => Err(DecodeError::Malformed),
        Some(v) => decode_value(&v),
    }
}

/// The frame that carries an outgoing chat message: its text as it is, with
/// no envelope round it.
pub fn encode(message_text: &str) -> (frame: String)
    ensures
        frame@ == message_text@,
{
    String::from_str(message_text)
}

/// The text of the notice sent before the client closes its connection.
pub open spec fn disconnect_notice_text() -> Seq<char> {
    "{\"type\":\"Disconnect\",\"data\":"@ + json_quoted("User disconnection"@) + "}"@
}

/// The `Disconnect` envelope, with its reason, as the text of a frame.
pub fn encode_disconnect_notice() -> (frame: String)
    ensures
        frame@ == disconnect_notice_text(),
{
    let mut frame = String::from_str("{\"type\":\"Disconnect\",\"data\":");
    let reason = json_quote("User disconnection");
    frame.append(reason.as_str());
    frame.append("}");
    frame
}

/// The member holds exactly the text `t`.
pub open spec fn holds_text(v: Option<JsonValue>, t: Seq<char>) -> bool {
    match v {
        Some(JsonValue::Str(s)) => s@ == t,
        _ => false,
    }
}

/// The member is written for an optional text: absent or null for `None`.
pub open spec fn holds_optional_text(v: Option<JsonValue>, o: Option<Seq<char>>) -> bool {
    match o {
        None => v is None || v == Some(JsonValue::Null),
        Some(t) => holds_text(v, t),
    }
}

/// The member is written for an optional integer: absent or null for `None`.
pub open spec fn holds_optional_i32(v: Option<JsonValue>, o: Option<i32>) -> bool {
    match o {
        None => v is None || v == Some(JsonValue::Null),
        Some(c) => v == Some(JsonValue::Number(Some(c as i64))),
    }
}

/// The JSON value is a writing of the participant `u`: an object with a
/// member for each field (other members may stand beside them).
pub open spec fn encodes_user(v: JsonValue, u: UserModel) -> bool {
    match v {
        JsonValue::Object(m) => holds_text(lookup(m@, "id"@), u.id)
            && holds_text(lookup(m@, "username"@), u.username)
            && holds_text(lookup(m@, "discriminator"@), u.discriminator)
            && holds_optional_text(lookup(m@, "global_name"@), u.global_name)
            && holds_optional_text(lookup(m@, "avatar"@), u.avatar)
            && holds_optional_i32(lookup(m@, "accent_color"@), u.accent_color),
        _ => false,
    }
}

pub open spec fn tag_name(e: EnvelopeModel) -> Seq<char> {
    match e {
        EnvelopeModel::Session(_) => "Session"@,
        EnvelopeModel::ConnectedUsers(_) => "ConnectedUsers"@,
        EnvelopeModel::Message(_) => "Message"@,
        EnvelopeModel::Disconnect(_) => "Disconnect"@,
    }
}

/// The members of a JSON object are a writing of the roster `r`, in order.
pub open spec fn encodes_roster(m: Seq<(String, JsonValue)>, r: Seq<(Seq<char>, UserModel)>) -> bool {
    m.len() == r.len() && forall|i: int| 0 <= i < r.len() ==> #[trigger] m[i].0@ == r[i].0 && encodes_user(m[i].1, r[i].1)
}

/// The JSON value is a writing of the payload of `e`.
pub open spec fn encodes_payload(d: JsonValue, e: EnvelopeModel) -> bool {
    match e {
        EnvelopeModel::Session(u) => encodes_user(d, u),
        EnvelopeModel::ConnectedUsers(r) => match d {
            JsonValue::Object(m) => encodes_roster(m@, r),
            _ => false,
        },
        EnvelopeModel::Message(c) => match d {
            JsonValue::Object(m) => holds_text(lookup(m@, "author"@), c.author)
                && holds_text(lookup(m@, "content"@), c.content),
            _ => false,
        },
        EnvelopeModel::Disconnect(t) => match d {
            JsonValue::Str(s) => s@ == t,
            _ => false,
        },
    }
}

/// The JSON value is a writing of the envelope `e`: an object whose "type"
/// member names the variant and whose "data" member is the payload.
pub open spec fn encodes_envelope(v: JsonValue, e: EnvelopeModel) -> bool {
    match v {
        JsonValue::Object(m) => holds_text(lookup(m@, "type"@), tag_name(e)) && match lookup(
            m@,
            "data"@,
        ) {
            Some(d) => encodes_payload(d, e),
            None => false,
        },
        _ => false,
    }
}

proof fn lemma_user_round_trip(v: JsonValue, u: UserModel)
    requires
        encodes_user(v, u),
    ensures
        user_model(v) == Some(u),
{
}

proof fn lemma_roster_round_trip(m: Seq<(String, JsonValue)>, r: Seq<(Seq<char>, UserModel)>)
    requires
        keys_distinct(r),
        encodes_roster(m, r),
    ensures
        roster_model(m) == Some(r),
    decreases m.len(),
{
    if m.len() > 0 {
        let n = m.len() - 1;
        assert forall|i: int| 0 <= i < r.drop_last().len() implies #[trigger] m.drop_last()[i].0@
            == r.drop_last()[i].0 && encodes_user(m.drop_last()[i].1, r.drop_last()[i].1) by {
            assert(m[i].0@ == r[i].0);
        }
        assert(keys_distinct(r.drop_last()));
        lemma_roster_round_trip(m.drop_last(), r.drop_last());
        assert(m[n].0@ == r[n].0);
        lemma_user_round_trip(m.last().1, r.last().1);
        if has_key(r.drop_last(), m.last().0@) {
            let j = choose|j: int| 0 <= j < r.drop_last().len() && r.drop_last()[j].0 == m.last().0@;
            assert(r[j].0 == r[n].0);
        }
        assert(r.drop_last().push((m.last().0@, r.last().1)) =~= r);
    }
}

proof fn lemma_tag_names(e: EnvelopeModel)
    ensures
        tag_of(tag_name(e)) == Some(
            match e {
                EnvelopeModel::Session(_) => Tag::Session,
                EnvelopeModel::ConnectedUsers(_) => Tag::ConnectedUsers,
                EnvelopeModel::Message(_) => Tag::Message,
                EnvelopeModel::Disconnect(_) => Tag::Disconnect,
            },
        ),
{
    reveal_strlit("Session");
    reveal_strlit("ConnectedUsers");
    reveal_strlit("Message");
    reveal_strlit("Disconnect");
    assert("Session"@.len() != "ConnectedUsers"@.len());
    assert("Session"@.len() != "Disconnect"@.len());
    assert("Message"@.len() != "ConnectedUsers"@.len());
    assert("Message"@.len() != "Disconnect"@.len());
    assert("ConnectedUsers"@.len() != "Disconnect"@.len());
    assert("Message"@[0] != "Session"@[0]);
}

/// Decoding inverts encoding: every well-formed envelope, written as JSON
/// with its tag and payload, decodes back to itself.
pub proof fn lemma_decode_encoded(v: JsonValue, e: EnvelopeModel)
    requires
        e.wf(),
        encodes_envelope(v, e),
    ensures
        decode_model(v) == Ok::<EnvelopeModel, DecodeError>(e),
{
    lemma_tag_names(e);
    if let JsonValue::Object(m) = v {
        let d = lookup(m@, "data"@).unwrap();
        match e {
            EnvelopeModel::Session(u) => lemma_user_round_trip(d, u),
            EnvelopeModel::ConnectedUsers(r) => {
                if let JsonValue::Object(dm) = d {
                    lemma_roster_round_trip(dm@, r);
                }
            },
            _ => {},
        }
    }
}

/// Text that is not JSON decodes to `Malformed`.
pub proof fn lemma_malformed_text(t: Seq<char>)
    requires
        json_parse(t) is None,
    ensures
        decode_text(t) == Err::<EnvelopeModel, DecodeError>(DecodeError::Malformed),
{
}

/// An object whose "type" member is a string naming no variant decodes to
/// `UnknownVariant`, whatever its payload.
pub proof fn lemma_unknown_tag(v: JsonValue)
    requires
        v matches JsonValue::Object(m) && match lookup(m@, "type"@) {
            Some(JsonValue::Str(t)) => tag_of(t@) is None,
            _ => false,
        },
    ensures
        decode_model(v) == Err::<EnvelopeModel, DecodeError>(DecodeError::UnknownVariant),
{
}

} // verus!

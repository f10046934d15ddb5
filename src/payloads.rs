//! Two of the platform's operations, as payloads with required and optional
//! fields.
use vstd::prelude::*;
use vstd::string::StringExecFns;
use crate::payload::{Encoding, FieldValue, PayloadFields, ValueModel, required_view};

verus! {

/// The view of a list of optional fields.
pub open spec fn optional_view(s: Seq<(String, Option<FieldValue>)>) -> Seq<(Seq<char>, Option<ValueModel>)> {
    s.map_values(|f: (String, Option<FieldValue>)| (f.0@, match f.1 {
        Some(v) => Some(v@),
        None => None,
    }))
}

fn name(s: &str) -> (r: String)
    ensures
        r@ == s@,
{
    <String as StringExecFns>::from_str(s)
}

/// Asks for a list of a user's profile pictures.
#[derive(Debug, Clone, PartialEq, Eq)]
pub struct GetUserProfilePhotos {
    /// The target user.
    pub user_id: i64,
    /// The number of the first photo to return.
    pub offset: Option<u32>,
    /// How many photos to return.
    pub limit: Option<u8>,
}

impl GetUserProfilePhotos {
    /// A payload with the required field set and no optional field.
    pub fn new(user_id: i64) -> (r: Self)
        ensures
            r.user_id == user_id,
            r.offset is None,
            r.limit is None,
    {
        GetUserProfilePhotos { user_id, offset: None, limit: None }
    }

    /// This operation goes as JSON.
    pub fn encoding(&self) -> (r: Encoding)
        ensures
            r == Encoding::Json,
    {
        Encoding::Json
    }

    /// Sets `offset`.
    pub fn offset(self, v: u32) -> (r: Self)
        ensures
            r == (GetUserProfilePhotos { offset: Some(v), ..self }),
    {
        GetUserProfilePhotos { offset: Some(v), ..self }
    }

    /// Sets `limit`.
    pub fn limit(self, v: u8) -> (r: Self)
        ensures
            r == (GetUserProfilePhotos { limit: Some(v), ..self }),
    {
        GetUserProfilePhotos { limit: Some(v), ..self }
    }

    /// The fields of this payload, in declaration order.
    pub fn fields(&self) -> (r: PayloadFields)
        ensures
            r.method@ == "GetUserProfilePhotos"@,
            required_view(r.required@) == seq![("user_id"@, ValueModel::Int(self.user_id))],
            optional_view(r.optional@) == seq![
                ("offset"@, match self.offset { Some(v) => Some(ValueModel::Int(v as i64)), None => None }),
                ("limit"@, match self.limit { Some(v) => Some(ValueModel::Int(v as i64)), None => None }),
            ],
    {
        let offset = match self.offset {
            Some(v) => Some(FieldValue::Int(v as i64)),
            None => None,
        };
        let limit = match self.limit {
            Some(v) => Some(FieldValue::Int(v as i64)),
            None => None,
        };
        let r = PayloadFields {
            method: name("GetUserProfilePhotos"),
            required: vec![(name("user_id"), FieldValue::Int(self.user_id))],
            optional: vec![(name("offset"), offset), (name("limit"), limit)],
        };
        assert(required_view(r.required@) =~= seq![("user_id"@, ValueModel::Int(self.user_id))]);
        assert(optional_view(r.optional@) =~= seq![
            ("offset"@, match self.offset { Some(v) => Some(ValueModel::Int(v as i64)), None => None }),
            ("limit"@, match self.limit { Some(v) => Some(ValueModel::Int(v as i64)), None => None }),
        ]);
        r
    }
}

/// A chat: its numeric identifier, or the username of a channel.
#[derive(Debug, Clone, PartialEq, Eq)]
pub enum ChatId {
    Id(i64),
    ChannelUsername(String),
}

impl ChatId {
    /// The value that a chat is sent as.
    pub open spec fn value(&self) -> ValueModel {
        match self {
            ChatId::Id(i) => ValueModel::Int(*i),
            ChatId::ChannelUsername(s) => ValueModel::Text(s@),
        }
    }

    fn to_value(&self) -> (r: FieldValue)
        ensures
            r@ == self.value(),
    {
        match self {
            ChatId::Id(i) => FieldValue::Int(*i),
            ChatId::ChannelUsername(s) => FieldValue::Text(s.clone()),
        }
    }
}

/// Sends a group of photos, videos, documents or audios as an album.
#[derive(Debug, Clone, PartialEq, Eq)]
pub struct SendMediaGroup {
    /// The target chat.
    pub chat_id: ChatId,
    /// The items of the album, as one JSON array.
    pub media: String,
    /// Sends the messages silently.
    pub disable_notification: Option<bool>,
    /// The message that this album replies to.
    pub reply_to_message_id: Option<i32>,
    /// Sends even when the replied-to message is not found.
    pub allow_sending_without_reply: Option<bool>,
}

pub open spec fn opt_bool(o: Option<bool>) -> Option<ValueModel> {
    match o {
        Some(b) => Some(ValueModel::Bool(b)),
        None => None,
    }
}

fn bool_field(o: Option<bool>) -> (r: Option<FieldValue>)
    ensures
        match r {
            Some(v) => opt_bool(o) == Some(v@),
            None => o is None,
        },
{
    match o {
        Some(b) => Some(FieldValue::Bool(b)),
        None => None,
    }
}

impl SendMediaGroup {
    /// A payload with the required fields set and no optional field.
    pub fn new(chat_id: ChatId, media: String) -> (r: Self)
        ensures
            r.chat_id == chat_id,
            r.media == media,
            r.disable_notification is None,
            r.reply_to_message_id is None,
            r.allow_sending_without_reply is None,
    {
        SendMediaGroup {
            chat_id,
            media,
            disable_notification: None,
            reply_to_message_id: None,
            allow_sending_without_reply: None,
        }
    }

    /// This operation goes as a multipart form, since its media may be files.
    pub fn encoding(&self) -> (r: Encoding)
        ensures
            r == Encoding::Multipart,
    {
        Encoding::Multipart
    }

    /// Sets `disable_notification`.
    pub fn disable_notification(self, v: bool) -> (r: Self)
        ensures
            r == (SendMediaGroup { disable_notification: Some(v), ..self }),
    {
        SendMediaGroup { disable_notification: Some(v), ..self }
    }

    /// Sets `reply_to_message_id`.
    pub fn reply_to_message_id(self, v: i32) -> (r: Self)
        ensures
            r == (SendMediaGroup { reply_to_message_id: Some(v), ..self }),
    {
        SendMediaGroup { reply_to_message_id: Some(v), ..self }
    }

    /// Sets `allow_sending_without_reply`.
    pub fn allow_sending_without_reply(self, v: bool) -> (r: Self)
        ensures
            r == (SendMediaGroup { allow_sending_without_reply: Some(v), ..self }),
    {
        SendMediaGroup { allow_sending_without_reply: Some(v), ..self }
    }

    /// The fields of this payload, in declaration order.
    pub fn fields(&self) -> (r: PayloadFields)
        ensures
            r.method@ == "SendMediaGroup"@,
            required_view(r.required@) == seq![
                ("chat_id"@, self.chat_id.value()),
                ("media"@, ValueModel::Json(self.media@)),
            ],
            optional_view(r.optional@) == seq![
                ("disable_notification"@, opt_bool(self.disable_notification)),
                ("reply_to_message_id"@, match self.reply_to_message_id {
                    Some(v) => Some(ValueModel::Int(v as i64)),
                    None => None,
                }),
                ("allow_sending_without_reply"@, opt_bool(self.allow_sending_without_reply)),
            ],
    {
        let reply = match self.reply_to_message_id {
            Some(v) => Some(FieldValue::Int(v as i64)),
            None => None,
        };
        let r = PayloadFields {
            method: name("SendMediaGroup"),
            required: vec![
                (name("chat_id"), self.chat_id.to_value()),
                (name("media"), FieldValue::Json(self.media.clone())),
            ],
            optional: vec![
                (name("disable_notification"), bool_field(self.disable_notification)),
                (name("reply_to_message_id"), reply),
                (name("allow_sending_without_reply"), bool_field(self.allow_sending_without_reply)),
            ],
        };
        assert(required_view(r.required@) =~= seq![
            ("chat_id"@, self.chat_id.value()),
            ("media"@, ValueModel::Json(self.media@)),
        ]);
        assert(optional_view(r.optional@) =~= seq![
            ("disable_notification"@, opt_bool(self.disable_notification)),
            ("reply_to_message_id"@, match self.reply_to_message_id {
                Some(v) => Some(ValueModel::Int(v as i64)),
                None => None,
            }),
            ("allow_sending_without_reply"@, opt_bool(self.allow_sending_without_reply)),
        ]);
        r
    }
}

} // verus!

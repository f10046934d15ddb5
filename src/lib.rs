//! A typed client core for a bot-platform HTTP API: request encoding,
//! endpoint resolution and response-envelope decoding, with their contracts.
pub mod json;
pub mod envelope;
pub mod text;
pub mod payload;
pub mod endpoint;
pub mod bot;
pub mod payloads;
pub mod settings;

pub use bot::{ApiUrl, Bot, JsonRequest, MultipartRequest};
pub use endpoint::BaseUrl;
pub use envelope::{decode_envelope, decode_response, Exchange, RequestError};
pub use payload::{encode_json, multipart_parts, Encoding, FieldValue, FileSource, InputFile, Part, PartBody, PayloadFields};
pub use payloads::{ChatId, GetUserProfilePhotos, SendMediaGroup};
pub use settings::{sound_settings, ClientSettings};

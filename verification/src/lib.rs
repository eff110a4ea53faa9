//! Client library for a group-chat webhook API.
//!
//! The library builds typed message payloads (text, markdown, image, news,
//! file), renders them into the exact JSON wire shape the remote endpoint
//! expects, and holds the configuration and decision logic of the webhook
//! client (endpoint derivation from a key, response classification).  The
//! HTTP transport itself lives outside the library.

pub mod bot;
pub mod image;
pub mod json;
pub mod laws;
pub mod media;
pub mod message;
pub mod response;
pub mod text;

pub use bot::WeComBot;
pub use bot::WeComBotBuilder;
pub use bot::WeComError;
pub use image::Image;
pub use media::MediaType;
pub use message::Article;
pub use message::Message;
pub use response::SendResp;
pub use response::UploadResp;

//! Typed request and response mapping for a Piped instance.
//!
//! The crate builds the request target for each resource of the service and
//! decodes the JSON documents that the service answers with. It performs no
//! network traffic itself: a caller sends each [`Request`] with the HTTP
//! transport of its choice and hands the [`Reply`] back.

pub mod client;
pub mod decode;
pub mod encoding;
pub mod error;
pub mod instance;
pub mod json;
pub mod reply;
pub mod request;
pub mod structure;
pub mod target;
pub mod text;

pub use client::PipedClient;
pub use decode::{Decode, Expected, Mismatch};
pub use error::{DecodeError, Error, NetworkError};
pub use json::{Json, Member, SyntaxError};
pub use reply::Reply;
pub use request::{Request, USER_AGENT};
pub use structure::{
    Channel, ChannelSearch, ChannelSearchItem, Comment, CommentsInfo, Playlist, RelatedStream,
    Stream, StreamsPage, Subtitle, VideoInfo,
};
pub use target::{Target, TargetError};

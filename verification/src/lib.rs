//! Federation engine: message signing and verification, outbound fan-out and
//! the inbox pipeline that applies remote activities to local state.

pub mod activity;
pub mod activity_pub;
pub mod admin;
pub mod api_tokens;
pub mod blogs;
pub mod broadcast;
pub mod codec;
pub mod comment_seers;
pub mod comments;
pub mod follows;
pub mod inbox;
pub mod json;
pub mod keys;
pub mod likes;
pub mod listing;
pub mod medias;
pub mod mentions;
pub mod post_authors;
pub mod posts;
pub mod receive;
pub mod remote;
pub mod request;
pub mod reshares;
pub mod resolve;
pub mod sign;
pub mod store;
pub mod table;
pub mod tags;
pub mod text;
pub mod time;
pub mod users;
pub mod wire;

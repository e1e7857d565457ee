//! What the backend asks of the remote service, and how it reads the answers.

pub mod client;
pub mod converter;

pub use client::{normalize_url, MastodonClient, OAuthAppData};
pub use converter::{
    convert_media_type, convert_notification_type, convert_visibility, strip_html,
};

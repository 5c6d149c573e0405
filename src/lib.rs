//! Verified core of a small mail-receiving gateway: the per-connection
//! command dialogue, recipient resolution, the rate gate and the message
//! summary, together with the pure helpers of the web-facing collaborators.

pub mod decode;
pub mod gmail_api;
pub mod imap_client;
pub mod jwt;
pub mod limiter;
pub mod oauth;
pub mod protocol;
pub mod recipient;
pub mod routes;
pub mod session;
pub mod text;
pub mod workos_auth;

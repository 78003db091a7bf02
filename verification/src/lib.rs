//! Client-side logic of an invite-code manager: the login and TOTP-enrollment
//! state machine, the invite-code store with its search and status filter,
//! and the descriptions of the requests the backend gateway understands.

pub mod auth;
pub mod codes;
pub mod errors;
pub mod gateway;
pub mod qr;
pub mod store;
pub mod styles;
pub mod text;

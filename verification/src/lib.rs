//! Rating-poster service core: identifier parsing, rating-source ordering and
//! cache-key derivation, retry policy, authentication helpers, refresh-token
//! rotation and the small layout/colour rules used when rendering badges.

pub mod admin;
pub mod auth;
pub mod badge;
pub mod canvas;
pub mod config;
pub mod entity;
pub mod error;
pub mod icons;
pub mod id;
pub mod images;
pub mod layout;
pub mod providers;
pub mod ratings;
pub mod render;
pub mod resolve;
pub mod retry;
pub mod routes;
pub mod session;
pub mod settings;
pub mod text;
pub mod upgrade;

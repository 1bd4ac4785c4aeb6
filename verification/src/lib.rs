//! Verified core of the photo-sharing AR backend: request validation,
//! credential and token handling, room and asset rules, the live-update hub
//! and the WebSocket session logic. The HTTP server, the database and the
//! object store are driven by the thin shell in `app/`, which hands every
//! outcome of its I/O back to the functions here.

pub mod error;
pub mod text;
pub mod ids;
pub mod clock;
pub mod crypto;
pub mod security;
pub mod auth;
pub mod auth_flow;
pub mod rooms;
pub mod placement;
pub mod room_flows;
pub mod presign;
pub mod storage;
pub mod assets;
pub mod signed_reads;
pub mod upload;
pub mod worldmap;
pub mod health;
pub mod config;
pub mod hub;
pub mod ws;

//! Verified core of the NFC bridge.
pub mod bridge;
pub mod clock;
pub mod config;
pub mod error;
pub mod events;
pub mod json;
pub mod nfc;
pub mod registry_sounds;
pub mod service;
pub mod text;
pub mod ws;

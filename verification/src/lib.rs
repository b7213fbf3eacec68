//! Verified core of DayRecord: on-screen text capture (the tree walk, the
//! fragment collection and the snapshot), key-code classification, secret
//! encoding, storage decisions, desktop and CLI decisions, the MCP replies
//! and the diagnostics of `dayrecord doctor`.

pub mod base64;
pub mod cli;
pub mod doctor;
pub mod keyboard;
pub mod llm;
pub mod mcp;
pub mod platform;
pub mod screen_text;
pub mod secret;
pub mod settings;
pub mod storage;
pub mod text;
pub mod uia_common;

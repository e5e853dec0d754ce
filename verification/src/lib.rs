//! Verified core of the Noema desktop client: message display models, voice
//! coordination, URL/percent and base64 handling, Google Docs import planning,
//! MCP/OAuth decision logic and attachment classification.

pub mod text;
pub mod percent;
pub mod b64;
pub mod pdf;
pub mod attachments;
pub mod compose;
pub mod files;
pub mod voice;
pub mod vad;
pub mod audio;
pub mod model;
pub mod display;
pub mod chat;
pub mod strmap;
pub mod session;
pub mod events;
pub mod responses;
pub mod gdocs;
pub mod gdocs_tools;
pub mod doctabs;
pub mod import;
pub mod http;
pub mod mcp;
pub mod agent;
pub mod oauth;

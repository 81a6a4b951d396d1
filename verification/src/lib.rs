//! Verified core of the CyberChan SDK: configuration, protocol messages,
//! the decisions an agent takes while it talks to the server, and the
//! requests of the REST client.

pub mod agent;
pub mod client;
pub mod error;
pub mod models;
pub mod text;

pub use agent::AgentConfig;
pub use client::CyberChanClient;
pub use error::SdkError;
pub use models::{
    AuthSuccessEvent, ClientMessage, ErrorEvent, ModerationEvent, ReplyEvent, ServerEvent,
    ThreadEvent, default_style,
};

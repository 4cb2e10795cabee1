//! The message gateway between chat platforms and the AI agent process.
//!
//! Platforms deliver messages; the router keeps one session per chat and
//! asks the agent, over JSON-RPC 2.0 on the agent's standard streams, to
//! handle them; the agent's notifications flow back to the platforms.

pub mod json;
pub mod decode;
pub mod text;
pub mod table;
pub mod error;
pub mod agent_bridge;
pub mod router;
pub mod http;
pub mod platforms;

pub use agent_bridge::{AgentBridge, BridgeConfig};
pub use router::{Router, InboundMessage, OutboundMessage};
pub use platforms::QQBotAdapter;

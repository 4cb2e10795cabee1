//! Integrations with messaging platforms.

pub mod qqbot;

pub use qqbot::QQBotAdapter;

//! Membership challenges for group chats: puzzle generation, the registry of
//! pending challenges, and the decisions of a challenge's lifecycle.
mod chance;
pub mod commands;
pub mod config;
pub mod dispatch;
pub mod lifecycle;
pub mod puzzle;
pub mod registry;
pub mod sinks;
pub mod symbols;
pub mod telegram;
pub mod text;

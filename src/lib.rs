//! A transparent intermediary between a line-protocol controller and a
//! backend engine that evaluates move-generation requests before forwarding.
pub mod bytes;
pub mod window;
pub mod framer;
pub mod color;
pub mod fault;
pub mod command;
pub mod winrate;
pub mod messages;
pub mod broker;
pub mod channel;

//! Front door of a multi-app web UI: it relays HTTP requests and WebSocket
//! sessions to a backend application server.
//!
//! The network plumbing lives with the program that embeds this library. The
//! library holds the decisions: where a request goes, which headers travel,
//! what the client is told when the backend fails, how frames move through a
//! relay session and when both of its connections close.
pub mod backend;
pub mod context;
pub mod desktop;
pub mod drive;
pub mod health;
pub mod models;
pub mod proxy;
pub mod relay;
pub mod text;

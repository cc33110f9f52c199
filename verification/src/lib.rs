//! Verified core of a terminal Microsoft Teams client: the domain rules
//! (chat ids, message validation, HTML normalisation and escaping, token
//! expiry), failure classification, the chat and message lists built from
//! the chat service's records, service URLs, realtime frame reading and
//! reconnect policies, the decisions and messages of the login and status
//! commands, console rendering, and the state and key handling of the
//! terminal interface.

pub mod text;
pub mod error;
pub mod models;
pub mod rules;
pub mod token;
pub mod ports;
pub mod auth_service;
pub mod realtime;
pub mod http;
pub mod time;
pub mod presence;
pub mod json;
pub mod api;
pub mod client;
pub mod trouter;
pub mod auth;
pub mod console;
pub mod tui;
pub mod cli;

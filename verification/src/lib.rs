//! A realtime session multiplexer: a table of open connections, a table of
//! terminal input bindings, and the decisions of the tasks that serve them.

pub mod bridge;
pub mod channel;
pub mod config;
pub mod connection;
pub mod error;
pub mod heartbeat;
pub mod ident;
pub mod manager;
pub mod proxy;
pub mod receive;
pub mod resource;
pub mod text;
pub mod tray;

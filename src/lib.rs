//! A TLS-terminating reverse proxy: the decisions and text rewriting behind
//! its HTTP, redirect and WebSocket handlers, and its health state.
pub mod resolver;
pub mod utils;
pub mod health;
pub mod proxy;
pub mod config;
pub mod redirect;
pub mod websocket;

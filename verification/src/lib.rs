//! A small websocket RPC client/server toolkit: the decision logic of the
//! client session, the UI model, the logger and the RPC service, each with
//! its contract.

pub mod level;
pub mod logger;
pub mod model;
pub mod protocol;
pub mod service;
pub mod session;

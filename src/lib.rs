//! Request/response logic of a set of serverless event handlers: a streaming
//! token relay, batch partial-failure reporting, and the small decisions each
//! handler makes between receiving a trigger event and answering it.

pub mod json;
pub mod relay;
pub mod batch;
pub mod websocket;
pub mod web;
pub mod items;
pub mod events;
pub mod config;

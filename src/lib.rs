//! Client core for a cloud speech service: the framed duplex streaming
//! protocol (frame codec, correlation ids, connection life cycle, outbound
//! queue) and the request shapes of the one-shot recognition calls.

pub mod codes;
pub mod dispatcher;
pub mod endpoint;
pub mod event;
pub mod frame;
pub mod ident;
pub mod language;
pub mod phrase;
pub mod session;
pub mod speech;
pub mod text;

//! Control-plane bridge between a page-rendering engine and a host
//! application: a typed command/event protocol, a window registry with
//! geometry restore, a hit-testing layer for frameless windows, and an
//! authenticated loopback transport.

pub mod app;
pub mod command;
pub mod engine;
pub mod events;
pub mod geometry;
pub mod hittest;
pub mod json;
pub mod kvlist;
pub mod msgpack;
pub mod natmap;
pub mod options;
pub mod resource;
pub mod theme;
pub mod transport;
pub mod window_state;

//! Request and frame construction for the polygon.io market-data service.
//!
//! The crate holds the part of a client that can be reasoned about without a
//! network: which address a request or a session goes to, what the control
//! frames of the streaming feed look like, how a streaming session moves
//! through its life, and how a response status is judged. Performing the
//! transfers is left to the program that uses the crate.

pub mod client;
pub mod rest;
pub mod text;
pub mod types;
pub mod websocket;

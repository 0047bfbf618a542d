//! Decision logic of a slash-command webhook that captions meme templates.
//!
//! A request is authenticated, decoded and interpreted here; the reply that is
//! returned at once and the reply that is delivered later to the callback URL
//! are both built here. Sockets, the HTTP server and the captioning call itself
//! are left to the program around this library.

pub mod address;
pub mod auth;
pub mod caption;
pub mod command;
pub mod dispatch;
pub mod error;
pub mod invocation;
pub mod problem;
pub mod reply;
pub mod worker;

//! A small HTTP/1.x front end: request-line validation, verb dispatch and the
//! canned responses, with the decisions of the accept loop and of the
//! per-connection reader stated as pure step functions.

pub mod text;
pub mod methods;
pub mod error;
pub mod dispatch;
pub mod request;
pub mod connection;
pub mod acceptor;

//! A minimal HTTP/1.1 server that serves the files of one directory in answer to
//! `GET` requests: the part of it that decides, as verified functions.
//!
//! - `request` reads the request line from the bytes of a connection.
//! - `resource` turns the resource of a request into the path of a file and into a
//!   media type, with the MIME table of `mime`.
//! - `response` writes a response out as the bytes of an HTTP message, with the
//!   status table of `status`, and renders the error page.
//! - `connection` is the state machine of one connection, from its one read to the
//!   sending of the response; `dispatcher` says what the listener does.
//! - `config` holds the settings, and `text` what is needed of UTF-8 and of decimal
//!   numerals.
//!
//! Nothing here reads a socket or a file: a caller does the work that `connection`
//! and `dispatcher` ask for, and reports how it went.

pub mod config;
pub mod connection;
pub mod dispatcher;
pub mod mime;
pub mod request;
pub mod resource;
pub mod response;
pub mod status;
pub mod text;

pub use config::Config;
pub use request::Request;
pub use resource::ResourcePath;
pub use response::{Data, Response};

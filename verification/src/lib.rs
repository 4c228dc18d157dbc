//! The deciding core of an in-process HTTP test harness.
//!
//! A harness serves an application on a local port and gives tests a fluent
//! client for it. Everything such a harness decides lives here, on plain
//! values and with proved contracts: where the server is addressed, what
//! request a chain of builder calls describes, when the freshly launched
//! server counts as started, and what each way of reading a response body
//! yields. Sockets, tasks and timers belong to the program around it.
//!
//! The program obtains a free port and begins with [`TestClient::new`]. It
//! serves the application on [`Launch::addr`], sends [`Launch::probe`] and
//! hands each outcome to [`Launch::wait_until_server_started`] until that
//! yields the [`TestClient`]. A request begins with one of the client's
//! verbs, is shaped by the setters of [`RequestBuilder`], and leaves
//! through [`RequestBuilder::send`] as the [`Request`] to put on the wire.
//! The head of what comes back is wrapped with [`TestResponse::new`]; the
//! program delivers the body to the wrapper chunk by chunk, as far as the
//! test's reads need it.
pub mod addr;
pub mod buffer;
pub mod client;
pub mod error;
pub mod header;
pub mod request;
pub mod response;

pub use addr::ServerAddr;
pub use client::{Launch, Readiness, TestClient};
pub use error::Error;
pub use request::{Body, Header, Method, Request, RequestBuilder};
pub use response::{Delivery, TestResponse};

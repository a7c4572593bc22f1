//! A small client for the Google Maps Places HTTP API.
//!
//! The library holds the decisions of the client: how a credential read from
//! the environment is cleaned up, when a client counts as validated, and the
//! exact request addresses it sends. The network round trips themselves are
//! made by the caller, who hands the decoded replies back to the library.
//!
//! Two choices differ from a plain pass-through of the caller's text: the
//! text of a query is percent-encoded before it is placed in a request, so
//! that `&`, `=` or a space cannot change which parameters the service sees;
//! and a request or a decoding that fails is reported as
//! `GMapsClientError::RequestFailure` instead of ending the process.
//!
//! Only a `GMapsClient<Validated>` builds query requests, and the only way to
//! obtain one is a validation whose reply did not deny the credential.

pub mod client;
pub mod encoding;
pub mod reply;

pub use client::{GMapsClient, GMapsClientError, Invalidated, Validated};
pub use encoding::percent_encode;

//! Resilient retrieval of one remotely hosted media stream.
//!
//! A stream is fetched over HTTP into a local sink: with one request for
//! the whole resource, or, where the server answers that with 404, in
//! numbered segments. The library takes every decision of such a download
//! and leaves the requests, the file and the callbacks to its driver.
//!
//! - [`stream`] holds the descriptor of a stream, [`codecs`] what it carries.
//! - [`session`] is the download itself, one step at a time, and
//!   [`history`] what holds of every run of it.
//! - [`fetch`], [`header`], [`segment`] and [`decimal`] judge answers and
//!   build the addresses of segments.
//! - [`progress`] is the sending side of progress reporting, [`chunk`] the
//!   pieces of a body.
//! - [`content_length`] keeps the size of the resource once it is known.
//! - [`error`] names the failures.

pub mod chunk;
pub mod codecs;
pub mod content_length;
pub mod decimal;
pub mod error;
pub mod fetch;
pub mod header;
pub mod history;
pub mod progress;
pub mod segment;
pub mod session;
pub mod stream;

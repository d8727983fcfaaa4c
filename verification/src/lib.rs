//! A client for the Viessmann cloud API that leaves the transport to its caller.
//!
//! Every operation comes in two halves. The first builds the [`request::Request`] to
//! send; the second reads the [`reply::Reply`] that came back and returns the typed
//! record or one of the three kinds of [`reply::Error`]. Both halves are verified
//! against spec functions over the views of these types.

pub mod decimal;
pub mod decode;
pub mod json;
pub mod records;
pub mod reply;
pub mod request;
pub mod viessmann_client;

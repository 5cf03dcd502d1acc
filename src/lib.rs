//! Access to a collaborative document's content across a service boundary:
//! a remote kind that talks to a backend through a transport client, with an
//! interceptor that watches every response for a refused credential, and a
//! local kind that stands in for the backend without ever failing.
use vstd::prelude::*;

pub mod entities;
pub mod error;
pub mod request;
pub mod response;
pub mod service;

verus! {

} // verus!

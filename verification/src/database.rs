//! Handle to the document store.
//!
//! The store is an external collaborator: connecting and running queries are
//! asynchronous I/O and live outside this verified core. The library only
//! carries the client handle through the pipeline's shared context.

use vstd::prelude::*;

verus! {

/// Declares the driver type `mongodb::Client` so that it can stand in a
/// field. The client is opaque to this library: nothing here reads into it.
#[verifier::external_type_specification]
#[verifier::external_body]
pub struct ExClient(mongodb::Client);

/// A thin wrapper around the store driver's client handle.
///
/// The driver's own documentation notes that the client is cheap to clone and
/// that clones share the same underlying connection pool, which is why the
/// pipeline's context can hand it to every step without duplicating the
/// resource.
pub struct Database {
    pub client: mongodb::Client,
}

} // verus!

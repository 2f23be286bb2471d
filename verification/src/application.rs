//! The shared application context handed to every pipeline step.
//!
//! `App` is an immutable, cheaply-shareable handle to process-wide resources
//! (minimally the store client). Cloning it never duplicates the underlying
//! resource: every clone observes the same inner state.

use std::sync::Arc;
use vstd::prelude::*;
use crate::database::Database;

verus! {

/// The process-wide resources bundled behind the context handle.
pub struct AppInner {
    pub db: Database,
}

/// The shared context: a reference-counted handle to [`AppInner`].
pub struct App {
    inner: Arc<AppInner>,
}

/// Relies on `std::sync::Arc::clone`: the clone is another pointer to the
/// same allocation, so as a value it equals the original.
#[verifier::external_body]
fn share_inner(inner: &Arc<AppInner>) -> (r: Arc<AppInner>)
    ensures
        r == *inner,
{
    Arc::clone(inner)
}

impl App {
    /// The store handle this context carries.
    pub closed spec fn spec_database(self) -> Database {
        self.inner.db
    }

    /// Bundles a store handle into a fresh context.
    pub fn new_with_database(db: Database) -> (r: Self)
        ensures
            r.spec_database() == db,
    {
        App { inner: Arc::new(AppInner { db }) }
    }

    /// Borrows the store handle out of the context.
    pub fn database(&self) -> (r: &Database)
        ensures
            *r == self.spec_database(),
    {
        &self.inner.db
    }
}

impl Clone for App {
    /// A new handle to the same underlying resources.
    fn clone(&self) -> (r: Self)
        ensures
            r == *self,
    {
        App { inner: share_inner(&self.inner) }
    }
}

} // verus!

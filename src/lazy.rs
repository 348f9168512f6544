//! Deferred queries: a plan bound to the backend that will run it. Building
//! the handle does no work; running it is the backend's part.
use vstd::prelude::*;
use crate::error::{EngineError, Error};
use crate::state::EllaState;
use crate::table::Backend;

verus! {

/// A query that has not run yet.
#[derive(Debug)]
pub struct Lazy {
    plan: String,
    backend: Backend,
}

impl Lazy {
    pub closed spec fn plan_spec(&self) -> Seq<char> {
        self.plan@
    }

    pub closed spec fn backend_spec(&self) -> Backend {
        self.backend
    }

    pub fn new(plan: &str, backend: Backend) -> (r: Lazy)
        ensures
            r.plan_spec() == plan@,
            r.backend_spec() == backend,
    {
        Lazy { plan: plan.to_owned(), backend }
    }

    pub fn plan(&self) -> (r: &String)
        ensures
            r@ == self.plan_spec(),
    {
        &self.plan
    }

    pub fn backend(&self) -> (r: Backend)
        ensures
            r == self.backend_spec(),
    {
        self.backend
    }

    /// The result of running the query, as the backend reported it: a failure
    /// of a remote backend's transport becomes an execution error.
    pub fn finish<T>(&self, outcome: Result<T, String>) -> (r: Result<T, Error>)
        ensures
            outcome matches Ok(v) ==> r == Ok::<T, Error>(v),
            outcome matches Err(m) ==> (r matches Err(Error::Engine(EngineError::Execution(e))) && e@ == m@),
    {
        match outcome {
            Ok(v) => Ok(v),
            Err(m) => Err(Error::Engine(EngineError::Execution(m))),
        }
    }
}

impl EllaState {
    /// A deferred query on this session, bound to the local backend. Nothing
    /// runs and the session is unchanged.
    pub fn query(&self, sql: &str) -> (r: Lazy)
        ensures
            r.plan_spec() == sql@,
            r.backend_spec() == Backend::Local,
    {
        Lazy::new(sql, Backend::Local)
    }
}

} // verus!

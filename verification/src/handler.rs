use vstd::prelude::*;
use crate::request::Request;

verus! {

/// The outcome of one readiness query: the handler can accept a request
/// now, it cannot yet, or it has failed with an error of its own.
#[derive(Clone, Debug, PartialEq, Eq)]
pub enum Readiness<E> {
    Ready,
    Pending,
    Failed(E),
}

/// A request handler: the generic capability the adapter wraps and
/// provides. Implementations fix, through the two spec functions, what
/// each readiness query and each call returns, and the executable
/// methods are bound to return exactly that.
pub trait Handler: Sized {
    /// The success value a call produces.
    type Resp;

    /// The error value a call or a readiness query may produce.
    type Err;

    /// What a readiness query on this handler state returns.
    spec fn readiness(&self) -> Readiness<Self::Err>;

    /// What a call on this handler state returns for a given request.
    spec fn outcome(&self, req: Request) -> Result<Self::Resp, Self::Err>;

    /// Queries whether the handler can accept a request.
    fn poll_ready(&mut self) -> (r: Readiness<Self::Err>)
        ensures
            r == old(self).readiness(),
    ;

    /// Handles one request.
    fn call(&mut self, req: Request) -> (r: Result<Self::Resp, Self::Err>)
        ensures
            r == old(self).outcome(req),
    ;
}

} // verus!

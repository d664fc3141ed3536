use vstd::prelude::*;
use core::convert::Infallible;
use crate::filter::{Filter, Reply, Response};
use crate::handler::{Handler, Readiness};
use crate::request::{with_store, Request};
use crate::store::LazyReqStore;

verus! {

/// The adapter: wraps one inner handler and forwards readiness queries
/// and calls to it unchanged, after making sure the request carries a
/// `LazyReqStore` extension.
#[derive(Clone, Copy)]
pub struct JsonRpcService<S> {
    service: S,
}

impl<S> JsonRpcService<S> {
    /// The wrapped inner handler.
    pub closed spec fn inner(&self) -> S {
        self.service
    }

    /// Builds the adapter around one inner handler; there is nothing to
    /// configure.
    pub fn new(service: S) -> (a: JsonRpcService<S>)
        ensures
            a.inner() == service,
    {
        JsonRpcService { service }
    }
}

impl<S: Handler> Handler for JsonRpcService<S> {
    type Resp = S::Resp;

    type Err = S::Err;

    /// The adapter performs no readiness logic of its own: its readiness
    /// is the inner handler's.
    open spec fn readiness(&self) -> Readiness<S::Err> {
        self.inner().readiness()
    }

    /// The adapter's outcome is the inner handler's outcome on the
    /// request with the store extension made present.
    open spec fn outcome(&self, req: Request) -> Result<S::Resp, S::Err> {
        self.inner().outcome(with_store(req))
    }

    fn poll_ready(&mut self) -> (r: Readiness<S::Err>) {
        self.service.poll_ready()
    }

    fn call(&mut self, req: Request) -> (r: Result<S::Resp, S::Err>) {
        let mut q = req;
        // Add a `LazyReqStore` if it does not exist.
        if q.extensions.get().is_none() {
            q.extensions.insert(LazyReqStore::empty());
        }
        self.service.call(q)
    }
}

/// A filter made into a handler: it is always ready, and it resolves
/// every request to a response — a rejection is converted, totally,
/// into its response rather than surfaced as an error.
#[derive(Clone)]
pub struct FilterService<F: Filter> {
    filter: F,
}

impl<F: Filter> FilterService<F> {
    /// The underlying filter.
    pub closed spec fn filter(&self) -> F {
        self.filter
    }
}

impl<F: Filter> Handler for FilterService<F> {
    type Resp = Response;

    type Err = Infallible;

    open spec fn readiness(&self) -> Readiness<Infallible> {
        Readiness::Ready
    }

    open spec fn outcome(&self, req: Request) -> Result<Response, Infallible> {
        match self.filter().filter_spec(req) {
            Ok(ok) => Ok(ok.to_response_spec()),
            Err(rej) => Ok(rej.to_response_spec()),
        }
    }

    fn poll_ready(&mut self) -> (r: Readiness<Infallible>) {
        Readiness::Ready
    }

    fn call(&mut self, req: Request) -> (r: Result<Response, Infallible>) {
        match self.filter.apply(req) {
            Ok(ok) => Ok(ok.into_response()),
            Err(rej) => Ok(rej.into_response()),
        }
    }
}

/// Converts a filter into a request handler, wrapped in the adapter so
/// that the store-extension guarantee holds for everything built this
/// way. This is the mandatory entry point for using filters as
/// handlers: the result is fully determined by the filter it holds.
pub fn service<F: Filter + Clone>(filter: F) -> (s: JsonRpcService<FilterService<F>>)
    ensures
        s.inner().filter() == filter,
        s.readiness() == Readiness::<Infallible>::Ready,
        forall|req: Request| (#[trigger] s.outcome(req)) is Ok,
{
    JsonRpcService::new(FilterService { filter })
}

/// Law: the adapter's readiness result equals the inner handler's, for
/// every handler state and hence for every sequence of readiness
/// queries.
pub proof fn lemma_readiness_pass_through<S: Handler>(a: JsonRpcService<S>)
    ensures
        a.readiness() == a.inner().readiness(),
{
}

/// Law: for every request, the adapter's outcome is exactly the inner
/// handler's outcome — same success value or same error value — on the
/// request with the store extension made present.
pub proof fn lemma_result_pass_through<S: Handler>(a: JsonRpcService<S>, req: Request)
    ensures
        a.outcome(req) == a.inner().outcome(with_store(req)),
{
}

/// Law: a handler built from a filter never surfaces an error, for any
/// request and any filter decision: its outcome is always a response.
pub proof fn lemma_error_channel_uninhabited<F: Filter>(
    s: JsonRpcService<FilterService<F>>,
    req: Request,
)
    ensures
        s.outcome(req) is Ok,
{
}

} // verus!

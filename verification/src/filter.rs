use vstd::prelude::*;
use crate::request::Request;

verus! {

/// A complete HTTP response: a status code and a body.
#[derive(Clone, Debug, PartialEq, Eq)]
pub struct Response {
    pub status: u16,
    pub body: String,
}

/// A value convertible into a complete HTTP response.
pub trait Reply: Sized {
    /// The response this value converts into.
    spec fn to_response_spec(&self) -> Response;

    /// Converts this value into its response.
    fn into_response(self) -> (r: Response)
        ensures
            r == self.to_response_spec(),
    ;
}

impl Reply for Response {
    open spec fn to_response_spec(&self) -> Response {
        *self
    }

    fn into_response(self) -> (r: Response) {
        self
    }
}

impl Reply for String {
    open spec fn to_response_spec(&self) -> Response {
        Response { status: 200, body: *self }
    }

    fn into_response(self) -> (r: Response) {
        Response { status: 200, body: self }
    }
}

/// A typed rejection produced by a filter. Converting it into a
/// response is total: every rejection maps to some response.
#[derive(Clone, Debug, PartialEq, Eq)]
pub struct Rejection {
    pub status: u16,
    pub message: String,
}

impl Rejection {
    /// The response this rejection resolves to.
    pub open spec fn to_response_spec(&self) -> Response {
        Response { status: self.status, body: self.message }
    }

    /// Resolves the rejection into its response; this conversion
    /// cannot fail.
    pub fn into_response(self) -> (r: Response)
        ensures
            r == self.to_response_spec(),
    {
        Response { status: self.status, body: self.message }
    }
}

/// A request filter: a predicate/transform over requests that either
/// succeeds with a value convertible into a response or rejects the
/// request with a typed rejection. `filter_spec` fixes the outcome for
/// every request, and `apply` is bound to return exactly that.
pub trait Filter: Sized {
    /// The success value, convertible into a response.
    type Ok: Reply;

    /// What this filter decides for a given request.
    spec fn filter_spec(&self, req: Request) -> Result<Self::Ok, Rejection>;

    /// Runs the filter on one request.
    fn apply(&self, req: Request) -> (r: Result<Self::Ok, Rejection>)
        ensures
            r == self.filter_spec(req),
    ;
}

} // verus!

use warp_json_rpc::filter::{Filter, Rejection, Reply, Response};
use warp_json_rpc::handler::{Handler, Readiness};
use warp_json_rpc::request::{ExtensionBag, Request};
use warp_json_rpc::service::service;
use warp_json_rpc::store::LazyReqStore;

fn plain_request(method: &str) -> Request {
    Request {
        method: method.to_string(),
        headers: vec![],
        body: b"{}".to_vec(),
        extensions: ExtensionBag::new(),
    }
}

/// Succeeds on every request with the reply "OK".
#[derive(Clone)]
struct AlwaysOk;

impl Filter for AlwaysOk {
    type Ok = String;

    fn filter_spec(&self, _req: Request) -> Result<String, Rejection> {
        Ok("OK".to_string())
    }

    fn apply(&self, _req: Request) -> Result<String, Rejection> {
        Ok("OK".to_string())
    }
}

/// Rejects every request with a not-found rejection.
#[derive(Clone)]
struct AlwaysReject;

impl Filter for AlwaysReject {
    type Ok = String;

    fn filter_spec(&self, _req: Request) -> Result<String, Rejection> {
        Err(Rejection { status: 404, message: "not found".to_string() })
    }

    fn apply(&self, _req: Request) -> Result<String, Rejection> {
        Err(Rejection { status: 404, message: "not found".to_string() })
    }
}

/// Accepts POST requests with "OK"; rejects everything else.
#[derive(Clone)]
struct PostOnly;

impl Filter for PostOnly {
    type Ok = String;

    fn filter_spec(&self, req: Request) -> Result<String, Rejection> {
        self.apply(req)
    }

    fn apply(&self, req: Request) -> Result<String, Rejection> {
        if req.method == "POST" {
            Ok("OK".to_string())
        } else {
            Err(Rejection { status: 405, message: "method not allowed".to_string() })
        }
    }
}

/// Replies with a description of the store the filter finds in the
/// request it is handed.
#[derive(Clone)]
struct StoreProbe;

impl Filter for StoreProbe {
    type Ok = String;

    fn filter_spec(&self, req: Request) -> Result<String, Rejection> {
        self.apply(req)
    }

    fn apply(&self, req: Request) -> Result<String, Rejection> {
        match req.extensions.get() {
            None => Ok("absent".to_string()),
            Some(store) => match store.get() {
                None => Ok("present-empty".to_string()),
                Some(v) => Ok(format!("present:{}", v)),
            },
        }
    }
}

#[test]
fn constructed_handler_provides_an_empty_store_to_its_filter() {
    let mut handler = service(StoreProbe);
    let outcome = handler.call(plain_request("POST"));
    assert_eq!(outcome, Ok(Response { status: 200, body: "present-empty".to_string() }));
}

#[test]
fn constructed_handler_passes_an_existing_store_through() {
    let mut handler = service(StoreProbe);
    let mut store = LazyReqStore::empty();
    store.set("X".to_string());
    let req = Request {
        method: "POST".to_string(),
        headers: vec![],
        body: b"{}".to_vec(),
        extensions: ExtensionBag { store: Some(store) },
    };
    let outcome = handler.call(req);
    assert_eq!(outcome, Ok(Response { status: 200, body: "present:X".to_string() }));
}

#[test]
fn succeeding_filter_yields_its_reply() {
    let mut handler = service(AlwaysOk);
    let outcome = handler.call(plain_request("POST"));
    assert_eq!(outcome, Ok(Response { status: 200, body: "OK".to_string() }));
}

#[test]
fn rejected_request_still_yields_a_response() {
    let mut handler = service(AlwaysReject);
    let outcome = handler.call(plain_request("POST"));
    assert!(outcome.is_ok());
    assert_eq!(outcome, Ok(Response { status: 404, body: "not found".to_string() }));
}

#[test]
fn constructed_handler_is_always_ready() {
    let mut handler = service(AlwaysOk);
    assert_eq!(handler.poll_ready(), Readiness::Ready);
}

#[test]
fn cloned_handles_decide_each_request_on_its_own() {
    let mut first = service(PostOnly);
    let mut second = first.clone();

    let accepted = first.call(plain_request("POST"));
    let refused = second.call(plain_request("GET"));

    assert_eq!(accepted, Ok(Response { status: 200, body: "OK".to_string() }));
    assert_eq!(refused, Ok(Response { status: 405, body: "method not allowed".to_string() }));
}

#[test]
fn string_reply_converts_to_ok_response() {
    let r = "OK".to_string().into_response();
    assert_eq!(r, Response { status: 200, body: "OK".to_string() });
}

#[test]
fn response_reply_converts_to_itself() {
    let r = Response { status: 204, body: String::new() }.into_response();
    assert_eq!(r, Response { status: 204, body: String::new() });
}

#[test]
fn rejection_conversion_is_total_and_exact() {
    let rej = Rejection { status: 400, message: "bad request".to_string() };
    assert_eq!(rej.into_response(), Response { status: 400, body: "bad request".to_string() });
}

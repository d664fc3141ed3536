use vstd::prelude::*;
use crate::store::LazyReqStore;

verus! {

/// The per-request extension bag, reduced to the one typed slot this
/// crate ever reads or writes: the optional `LazyReqStore`.
pub struct ExtensionBag {
    pub store: Option<LazyReqStore>,
}

impl ExtensionBag {
    /// An extension bag with no store present.
    pub fn new() -> (e: ExtensionBag)
        ensures
            e == (ExtensionBag { store: None }),
    {
        ExtensionBag { store: None }
    }

    /// A reference to the stored `LazyReqStore`, if one is present.
    pub fn get(&self) -> (r: Option<&LazyReqStore>)
        ensures
            match r {
                Option::Some(s) => self.store == Option::Some(*s),
                Option::None => self.store is None,
            },
    {
        self.store.as_ref()
    }

    /// Stores a `LazyReqStore`, replacing any previous one.
    pub fn insert(&mut self, s: LazyReqStore)
        ensures
            *final(self) == (ExtensionBag { store: Some(s) }),
    {
        self.store = Some(s);
    }
}

/// An incoming request: method, headers and body are carried through
/// untouched; the extension bag is the only part this crate acts on.
pub struct Request {
    pub method: String,
    pub headers: Vec<(String, String)>,
    pub body: Vec<u8>,
    pub extensions: ExtensionBag,
}

/// The request as the inner handler sees it: identical to `req`, except
/// that an empty `LazyReqStore` has been added when none was present.
pub open spec fn with_store(req: Request) -> Request {
    if req.extensions.store is Some {
        req
    } else {
        Request { extensions: ExtensionBag { store: Some(LazyReqStore { value: None }) }, ..req }
    }
}

/// Law: a request that arrives without a store leaves the adapter's
/// preprocessing with exactly one store, and that store is empty; the
/// method, headers and body are untouched.
pub proof fn lemma_store_inserted_when_absent(req: Request)
    requires
        req.extensions.store is None,
    ensures
        with_store(req).extensions.store == Some(LazyReqStore { value: None }),
        with_store(req).method == req.method,
        with_store(req).headers == req.headers,
        with_store(req).body == req.body,
{
}

/// Law: a request that already carries a store passes the adapter's
/// preprocessing completely unchanged; in particular the store it
/// carried, whatever its contents, is still the one present.
pub proof fn lemma_store_preserved_when_present(req: Request)
    requires
        req.extensions.store is Some,
    ensures
        with_store(req) == req,
{
}

/// Law: the preprocessing is idempotent: running it twice gives the
/// same request as running it once.
pub proof fn lemma_with_store_idempotent(req: Request)
    ensures
        with_store(with_store(req)) == with_store(req),
{
}

} // verus!

use warp_json_rpc::ext::ensure_store;
use warp_json_rpc::store::LazyReqStore;

#[test]
fn empty_bag_receives_an_empty_store() {
    let mut bag = http::Extensions::new();
    assert!(bag.get::<LazyReqStore>().is_none());

    ensure_store(&mut bag);

    let stored = bag.get::<LazyReqStore>().expect("a store must be present");
    assert!(stored.is_empty());
}

#[test]
fn occupied_bag_keeps_its_store() {
    let mut bag = http::Extensions::new();
    let mut store = LazyReqStore::empty();
    store.set("X".to_string());
    bag.insert(store);

    ensure_store(&mut bag);

    let stored = bag.get::<LazyReqStore>().expect("a store must be present");
    assert_eq!(stored.get(), Some(&"X".to_string()));
}

#[test]
fn real_request_bag_receives_a_store() {
    let mut req = http::Request::new(hyper::Body::empty());
    assert!(req.extensions().get::<LazyReqStore>().is_none());

    ensure_store(req.extensions_mut());

    let stored = req.extensions().get::<LazyReqStore>().expect("a store must be present");
    assert!(stored.is_empty());
}

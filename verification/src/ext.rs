use vstd::prelude::*;
use crate::store::LazyReqStore;

verus! {

#[verifier::external_type_specification]
#[verifier::external_body]
pub struct ExExtensions(http::Extensions);

/// The one typed slot this crate uses of a real extension bag: whether
/// a `LazyReqStore` is stored in it, and if so, the view of that store.
pub uninterp spec fn stored_lazy(e: http::Extensions) -> Option<Option<Seq<char>>>;

/// Relies on http::Extensions::get::<LazyReqStore>: returns a reference
/// to the value of that type stored in the bag, if one exists.
#[verifier::external_body]
fn get_stored(e: &http::Extensions) -> (r: Option<&LazyReqStore>)
    ensures
        match r {
            Option::Some(s) => stored_lazy(*e) == Option::Some(s@),
            Option::None => stored_lazy(*e) is None,
        },
{
    e.get::<LazyReqStore>()
}

/// Relies on http::Extensions::insert::<LazyReqStore>: stores the value
/// in the bag at that type's slot, replacing any previous one there.
#[verifier::external_body]
fn put_stored(e: &mut http::Extensions, s: LazyReqStore)
    ensures
        stored_lazy(*final(e)) == Option::Some(s@),
{
    e.insert(s);
}

/// Makes sure a real extension bag carries a `LazyReqStore`: inserts a
/// fresh empty one when none is present, and leaves the bag entirely
/// untouched when one — whatever its contents — is already there.
pub fn ensure_store(ext: &mut http::Extensions)
    ensures
        stored_lazy(*old(ext)) is None ==> stored_lazy(*final(ext)) == Option::Some(
            Option::<Seq<char>>::None,
        ),
        stored_lazy(*old(ext)) is Some ==> *final(ext) == *old(ext),
{
    if get_stored(ext).is_none() {
        put_stored(ext, LazyReqStore::empty());
    }
}

} // verus!

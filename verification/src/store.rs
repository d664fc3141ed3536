use vstd::prelude::*;

verus! {

/// A lazily populated per-request store.
///
/// It starts out empty and receives its value, if ever, only after the
/// adapter has made it available to the layers below. Its view is the
/// optional value it currently holds.
#[derive(Clone)]
pub struct LazyReqStore {
    pub value: Option<String>,
}

impl View for LazyReqStore {
    type V = Option<Seq<char>>;

    open spec fn view(&self) -> Option<Seq<char>> {
        match self.value {
            Option::Some(v) => Option::Some(v@),
            Option::None => Option::None,
        }
    }
}

impl LazyReqStore {
    /// Builds a store that holds no value yet.
    pub fn empty() -> (s: LazyReqStore)
        ensures
            s == (LazyReqStore { value: None }),
    {
        LazyReqStore { value: None }
    }

    /// True exactly when no value has been stored yet.
    pub fn is_empty(&self) -> (r: bool)
        ensures
            r == (self@ is None),
    {
        self.value.is_none()
    }

    /// Populates the store with a value, replacing any previous one.
    pub fn set(&mut self, v: String)
        ensures
            *final(self) == (LazyReqStore { value: Some(v) }),
    {
        self.value = Some(v);
    }

    /// The currently stored value, if any.
    pub fn get(&self) -> (r: Option<&String>)
        ensures
            match r {
                Option::Some(v) => self.value == Option::Some(*v),
                Option::None => self.value is None,
            },
    {
        self.value.as_ref()
    }
}

} // verus!

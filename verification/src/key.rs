use vstd::prelude::*;

use crate::backend::Backend;

verus! {

/// A stored value together with the bytes that it was read from.
#[derive(Clone, Debug)]
pub struct DeserializedValueWithBytes<T> {
    pub bytes: Vec<u8>,
    pub inner: T,
}

impl<T> DeserializedValueWithBytes<T> {
    /// The value without its bytes.
    pub fn into_inner(self) -> (inner: T)
        ensures
            inner == self.inner,
    {
        self.inner
    }
}

/// The stored routes of a table's regions.
pub struct TableRouteValue<B: Backend> {
    pub region_routes: Vec<B::RegionRoute>,
    pub version: u64,
}

/// A table's stored description.
pub type TableInfo<B> = DeserializedValueWithBytes<<B as Backend>::TableInfoValue>;

/// A table's stored routes.
pub type TableRoute<B> = DeserializedValueWithBytes<TableRouteValue<B>>;

} // verus!

pub mod response;
pub mod types;

use vstd::prelude::*;

verus! {

/// What the server reports when it refuses an operation.
#[derive(Debug)]
pub struct Error {
    pub code: u16,
    pub message: String,
}

/// The success envelope: the payload under `data`.
#[derive(Clone, Debug)]
pub struct SchemaWrapper<T> {
    pub data: T,
}

/// The success envelope of one page of a listing: the page's payload and
/// where the page stands in the listing.
#[derive(Clone, Debug)]
pub struct PagedSchemaWrapper<T> {
    pub data: T,
    pub total: u32,
    pub page: u32,
    pub size: u32,
    pub pages: u32,
}

} // verus!

use vstd::prelude::*;

verus! {

/// The query of the file listing.
pub struct ListData {
    pub path: String,
    pub current: i32,
    pub page_size: i32,
}

/// The query of a file's content.
pub struct ContentData {
    pub path: String,
}

} // verus!

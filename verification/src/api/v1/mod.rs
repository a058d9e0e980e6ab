pub mod file;
pub mod login;
pub mod os;

use vstd::prelude::*;

verus! {

/// The query of the process check: a process id and a name to look for.
pub struct Params {
    pub name: String,
    pub pid: i32,
}

/// The session's visit counter after one more visit: 1 on the first visit.
pub fn next_counter(count: Option<i32>) -> (r: i32)
    requires
        count matches Some(c) ==> c < i32::MAX,
    ensures
        r == match count {
            Some(c) => c + 1,
            None => 1,
        },
{
    match count {
        Some(c) => c + 1,
        None => 1,
    }
}

} // verus!

use vstd::prelude::*;
use crate::common::text::{contains, decimal, decimal_string, has_infix, replace_all, replace_text};

verus! {

/// The database settings of the panel.
pub struct Database {
    pub path: String,
    pub max_pool: u32,
}

/// The configuration text with `workers: 0` (let the panel choose) replaced
/// by the number of processors.
pub open spec fn with_workers(contents: Seq<char>, cpus: nat) -> Seq<char> {
    if has_infix(contents, "workers: 0"@) {
        replace_all(contents, "workers: 0"@, "workers: "@ + decimal(cpus))
    } else {
        contents
    }
}

/// The configuration text in which `workers: 0` stands for one worker per processor.
pub fn expand_workers(contents: &str, cpus: u64) -> (r: String)
    ensures
        r@ == with_workers(contents@, cpus as nat),
{
    if contains(contents, "workers: 0") {
        proof {
            reveal_strlit("workers: 0");
        }
        let mut workers = String::from_str("workers: ");
        let n = decimal_string(cpus);
        workers.append(n.as_str());
        replace_text(contents, "workers: 0", workers.as_str())
    } else {
        String::from_str(contents)
    }
}

/// A configuration that does not say `workers: 0` is used as it is.
pub proof fn lemma_workers_kept(contents: Seq<char>, cpus: nat)
    requires
        !has_infix(contents, "workers: 0"@),
    ensures
        with_workers(contents, cpus) == contents,
{
}

} // verus!

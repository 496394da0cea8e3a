//! Thread locator: finds the existing discussion thread for an alert
//! identity, if any, among the remote platform's listed threads.

use vstd::prelude::*;
use crate::remote::{Container, RemoteThread};

verus! {

/// Whether `t` is the thread an identity correlates with: it hangs
/// under the target container and carries exactly the derived name.
pub open spec fn thread_matches(t: RemoteThread, container_id: u64, name: Seq<char>) -> bool {
    t.parent_id == container_id && t.name@ == name
}

/// Concatenates the active and the archived listing, active first:
/// the order the locator scans in.
pub fn combined_threads(active: Vec<RemoteThread>, archived: Vec<RemoteThread>) -> (r: Vec<
    RemoteThread,
>)
    ensures
        r@ == active@ + archived@,
{
    let mut all = active;
    let mut rest = archived;
    all.append(&mut rest);
    all
}

/// Finds the first thread in listing order that hangs under
/// `container` and is named `thread_name`. Duplicate names are an
/// accepted ambiguity: first match in listing order wins.
pub fn locate(threads: &Vec<RemoteThread>, container: &Container, thread_name: &String) -> (r:
    Option<usize>)
    ensures
        match r {
            Some(i) => i < threads@.len() && thread_matches(
                threads@[i as int],
                container.id,
                thread_name@,
            ) && forall|j: int|
                0 <= j < i ==> !thread_matches(threads@[j], container.id, thread_name@),
            None => forall|j: int|
                0 <= j < threads@.len() ==> !thread_matches(threads@[j], container.id, thread_name@),
        },
{
    let n = threads.len();
    for i in 0..n
        invariant
            n == threads@.len(),
            forall|j: int| 0 <= j < i ==> !thread_matches(threads@[j], container.id, thread_name@),
    {
        let t = &threads[i];
        if t.parent_id == container.id && t.name == *thread_name {
            return Some(i);
        }
    }
    None
}

} // verus!

//! Turning the directory enumerator's listing into the run's work set.
//!
//! The enumeration itself is I/O done by a collaborator outside this crate;
//! here stands the run-level decision it feeds: an enumeration error is
//! fatal, reported once, and schedules no work, while a successful listing
//! becomes one work item per subdirectory, in enumeration order.

use vstd::prelude::*;

use vstd::string::StringExecFns;

use crate::outcome::WorkItem;

verus! {

/// The path a work item gets: the root, one separator, then the name.
pub open spec fn spec_joined_path(root: Seq<char>, name: Seq<char>) -> Seq<char> {
    root + "/"@ + name
}

/// Joins the root path and a child directory name.
pub fn join_path(root: &str, name: &str) -> (p: String)
    ensures
        p@ == spec_joined_path(root@, name@),
{
    let mut p = root.to_owned();
    p.append("/");
    p.append(name);
    p
}

/// Builds the work set from the enumerator's result. On `Ok`, every listed
/// name becomes exactly one work item, in enumeration order, whose path is
/// the name joined under `root`. On `Err`, the error is handed back
/// unchanged: it is fatal to the run and no work items exist.
pub fn plan_work(listing: Result<Vec<String>, String>, root: &str) -> (r: Result<
    Vec<WorkItem>,
    String,
>)
    ensures
        match listing {
            Ok(names) => r matches Ok(items) && items@.len() == names@.len() && forall|i: int|
                0 <= i < names@.len() ==> (#[trigger] items@[i]).name@ == names@[i]@
                    && items@[i].path@ == spec_joined_path(root@, names@[i]@),
            Err(e) => r matches Err(f) && f@ == e@,
        },
{
    match listing {
        Ok(names) => {
            let n = names.len();
            let mut items: Vec<WorkItem> = Vec::new();
            let mut idx: usize = 0;
            while idx < n
                invariant
                    idx <= n,
                    n == names@.len(),
                    items@.len() == idx as int,
                    forall|i: int|
                        0 <= i < idx ==> (#[trigger] items@[i]).name@ == names@[i]@
                            && items@[i].path@ == spec_joined_path(root@, names@[i]@),
                decreases n - idx,
            {
                let name = names[idx].clone();
                let path = join_path(root, names[idx].as_str());
                items.push(WorkItem { name, path });
                idx += 1;
            }
            Ok(items)
        },
        Err(e) => Err(e),
    }
}

} // verus!

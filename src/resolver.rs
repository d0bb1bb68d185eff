use vstd::prelude::*;

use crate::error::AcqError;

verus! {

/// A content item as the query describes it. Immutable once resolved.
#[derive(Debug, PartialEq, Eq)]
pub struct ItemDescriptor {
    pub id: u64,
    pub title: String,
    pub owner_app_id: u64,
}

/// An entry that the selection rule accepts: present, with a non-empty title.
pub open spec fn qualifies(entry: Option<ItemDescriptor>) -> bool {
    match entry {
        Some(item) => item.title@.len() > 0,
        None => false,
    }
}

/// Picks the item out of a query response. `response` is `None` when the
/// query itself reported an error; otherwise it holds the entries in response
/// order, absent ones as `None`. The first entry with a non-empty title is
/// chosen.
pub fn select_item(response: Option<Vec<Option<ItemDescriptor>>>) -> (r: Result<
    ItemDescriptor,
    AcqError,
>)
    ensures
        response is None ==> r == Err::<ItemDescriptor, AcqError>(AcqError::Query),
        response is Some ==> {
            let entries = response->0@;
            &&& r is Err <==> (forall|i: int| 0 <= i < entries.len() ==> !qualifies(entries[i]))
            &&& r is Err ==> r == Err::<ItemDescriptor, AcqError>(AcqError::Query)
            &&& r is Ok ==> exists|i: int|
                0 <= i < entries.len() && entries[i] == Some(r->Ok_0) && qualifies(entries[i])
                    && forall|j: int| 0 <= j < i ==> !qualifies(entries[j])
        },
{
    match response {
        None => Err(AcqError::Query),
        Some(mut entries) => {
            let ghost listed = entries@;
            let mut i: usize = 0;
            while i < entries.len()
                invariant
                    entries@ == listed,
                    response is Some && response->0@ == listed,
                    i <= entries.len(),
                    forall|j: int| 0 <= j < i ==> !qualifies(listed[j]),
                decreases entries.len() - i,
            {
                let found = match &entries[i] {
                    Some(item) => !item.title.as_str().is_empty(),
                    None => false,
                };
                if found {
                    let chosen = entries.swap_remove(i);
                    match chosen {
                        Some(item) => {
                            return Ok(item);
                        },
                        None => {
                            return Err(AcqError::Query);
                        },
                    }
                }
                i = i + 1;
            }
            Err(AcqError::Query)
        },
    }
}

} // verus!

//! Collection rules: the created record and field-wise updates.

use vstd::prelude::*;
use crate::grpc::metadata::opt_text;
use crate::storage::error::StorageError;
use crate::storage::models::{Collection, CreateCollection, UpdateCollection, Folder, RequestItem};
use crate::storage::projects::require_name;
use crate::text::trimmed;

verus! {

/// Whether two lists of saved requests agree item for item.
pub open spec fn same_items(a: Seq<RequestItem>, b: Seq<RequestItem>) -> bool {
    a.len() == b.len() && forall|i: int| 0 <= i < a.len() ==> (#[trigger] a[i]).same_as(&b[i])
}

/// Whether two lists of folders agree folder for folder.
pub open spec fn same_folders(a: Seq<Folder>, b: Seq<Folder>) -> bool {
    a.len() == b.len() && forall|i: int| 0 <= i < a.len() ==> {
        &&& (#[trigger] a[i]).id@ == b[i].id@
        &&& a[i].name@ == b[i].name@
        &&& same_items(a[i].items@, b[i].items@)
    }
}

/// A copy of a list of saved requests.
pub fn duplicate_items(items: &Vec<RequestItem>) -> (r: Vec<RequestItem>)
    ensures
        same_items(r@, items@),
{
    let mut r: Vec<RequestItem> = Vec::new();
    let mut i: usize = 0;
    while i < items.len()
        invariant
            i <= items@.len(),
            r@.len() == i,
            forall|j: int| 0 <= j < i ==> (#[trigger] r@[j]).same_as(&items@[j]),
        decreases items@.len() - i,
    {
        r.push(items[i].duplicate());
        i = i + 1;
    }
    r
}

/// A copy of a list of folders.
pub fn duplicate_folders(folders: &Vec<Folder>) -> (r: Vec<Folder>)
    ensures
        same_folders(r@, folders@),
{
    let mut r: Vec<Folder> = Vec::new();
    let mut i: usize = 0;
    while i < folders.len()
        invariant
            i <= folders@.len(),
            r@.len() == i,
            forall|j: int| 0 <= j < i ==> {
                &&& (#[trigger] r@[j]).id@ == folders@[j].id@
                &&& r@[j].name@ == folders@[j].name@
                &&& same_items(r@[j].items@, folders@[j].items@)
            },
        decreases folders@.len() - i,
    {
        r.push(Folder {
            id: folders[i].id.clone(),
            name: folders[i].name.clone(),
            items: duplicate_items(&folders[i].items),
        });
        i = i + 1;
    }
    r
}

/// The record of a collection created from `create` with id `id` at
/// `now`; a blank name is rejected.
pub fn new_collection_record(create: &CreateCollection, id: String, now: i64) -> (r: Result<Collection, StorageError>)
    ensures
        trimmed(create.name@).len() == 0 ==> (r matches Err(StorageError::InvalidInput(m)) && m@
            == "Collection name is required"@),
        trimmed(create.name@).len() > 0 ==> (r matches Ok(c) && c.id@ == id@ && c.project_id@
            == create.project_id@ && c.name@ == create.name@ && same_folders(c.folders@, create.folders@)
            && same_items(c.items@, create.items@) && c.created_at == now && c.updated_at == now),
{
    match require_name(create.name.as_str(), "Collection name is required") {
        Err(e) => Err(e),
        Ok(()) => Ok(Collection {
            id,
            project_id: create.project_id.clone(),
            name: create.name.clone(),
            folders: duplicate_folders(&create.folders),
            items: duplicate_items(&create.items),
            created_at: now,
            updated_at: now,
        }),
    }
}

/// The collection after `update` at `now`: every field the update gives
/// replaces the stored one, the others stay; the creation time stays.
pub fn updated_collection(existing: &Collection, update: &UpdateCollection, now: i64) -> (c: Collection)
    ensures
        c.id@ == existing.id@,
        c.project_id@ == existing.project_id@,
        c.name@ == (match update.name {
            Some(n) => n@,
            None => existing.name@,
        }),
        same_folders(c.folders@, match update.folders {
            Some(f) => f@,
            None => existing.folders@,
        }),
        same_items(c.items@, match update.items {
            Some(i) => i@,
            None => existing.items@,
        }),
        c.created_at == existing.created_at,
        c.updated_at == now,
{
    let name = match &update.name {
        Some(n) => n.clone(),
        None => existing.name.clone(),
    };
    let folders = match &update.folders {
        Some(f) => duplicate_folders(f),
        None => duplicate_folders(&existing.folders),
    };
    let items = match &update.items {
        Some(i) => duplicate_items(i),
        None => duplicate_items(&existing.items),
    };
    Collection {
        id: existing.id.clone(),
        project_id: existing.project_id.clone(),
        name,
        folders,
        items,
        created_at: existing.created_at,
        updated_at: now,
    }
}

/// A stored list of saved requests holds each request as it was given:
/// the same id, name, service, method, body text, metadata and
/// environment reference, in the same order.
pub proof fn lemma_stored_requests_keep_their_text(stored: Seq<RequestItem>, given: Seq<RequestItem>)
    requires
        same_items(stored, given),
    ensures
        stored.len() == given.len(),
        forall|i: int| 0 <= i < given.len() ==> {
            &&& (#[trigger] stored[i]).body@ == given[i].body@
            &&& stored[i].id@ == given[i].id@
            &&& stored[i].name@ == given[i].name@
            &&& stored[i].service@ == given[i].service@
            &&& stored[i].method@ == given[i].method@
            &&& stored[i].metadata@ == given[i].metadata@
            &&& opt_text(stored[i].environment_id) == opt_text(given[i].environment_id)
        },
{
    assert forall|i: int| 0 <= i < given.len() implies {
        &&& (#[trigger] stored[i]).body@ == given[i].body@
        &&& stored[i].id@ == given[i].id@
        &&& stored[i].name@ == given[i].name@
        &&& stored[i].service@ == given[i].service@
        &&& stored[i].method@ == given[i].method@
        &&& stored[i].metadata@ == given[i].metadata@
        &&& opt_text(stored[i].environment_id) == opt_text(given[i].environment_id)
    } by {
        assert(stored[i].same_as(&given[i]));
    }
}

} // verus!

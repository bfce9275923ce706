//! Project rules: name checks, field-wise updates and what a clone copies.

use vstd::prelude::*;
use vstd::string::StringExecFns;
use crate::grpc::metadata::{StringMap, opt_text};
use crate::storage::error::StorageError;
use crate::storage::models::{
    Project, CreateProject, UpdateProject, Collection, Folder, RequestItem, new_storage_id,
    is_storage_id, clone_strings,
};
use crate::text::{trim_str, trimmed};

verus! {

/// Rejects a blank name with `InvalidInput(message)`.
pub fn require_name(name: &str, message: &str) -> (r: Result<(), StorageError>)
    ensures
        trimmed(name@).len() == 0 ==> (r matches Err(StorageError::InvalidInput(m)) && m@ == message@),
        r is Ok <==> trimmed(name@).len() > 0,
{
    if trim_str(name).as_str().is_empty() {
        Err(StorageError::InvalidInput(String::from_str(message)))
    } else {
        Ok(())
    }
}

/// The record of a project created from `create` with id `id` at `now`:
/// no default environment yet; a blank name is rejected.
pub fn new_project_record(create: &CreateProject, id: String, now: i64) -> (r: Result<Project, StorageError>)
    ensures
        trimmed(create.name@).len() == 0 ==> (r matches Err(StorageError::InvalidInput(m)) && m@
            == "Project name is required"@),
        trimmed(create.name@).len() > 0 ==> (r matches Ok(p) && p.id@ == id@ && p.name@ == create.name@
            && p.description@ == create.description@ && p.default_environment_id is None
            && p.proto_files@ == create.proto_files@ && p.created_at == now && p.updated_at == now),
{
    match require_name(create.name.as_str(), "Project name is required") {
        Err(e) => Err(e),
        Ok(()) => Ok(Project {
            id,
            name: create.name.clone(),
            description: create.description.clone(),
            default_environment_id: None,
            proto_files: clone_strings(&create.proto_files),
            created_at: now,
            updated_at: now,
        }),
    }
}

/// The project after `update` at `now`: every field the update gives
/// replaces the stored one, the others stay; the creation time stays.
pub fn updated_project(existing: &Project, update: &UpdateProject, now: i64) -> (p: Project)
    ensures
        p.id@ == existing.id@,
        p.name@ == (match update.name {
            Some(n) => n@,
            None => existing.name@,
        }),
        p.description@ == (match update.description {
            Some(d) => d@,
            None => existing.description@,
        }),
        p.proto_files@ == (match update.proto_files {
            Some(f) => f@,
            None => existing.proto_files@,
        }),
        opt_text(p.default_environment_id) == (match update.default_environment_id {
            Some(d) => Some(d@),
            None => opt_text(existing.default_environment_id),
        }),
        p.created_at == existing.created_at,
        p.updated_at == now,
{
    let name = match &update.name {
        Some(n) => n.clone(),
        None => existing.name.clone(),
    };
    let description = match &update.description {
        Some(d) => d.clone(),
        None => existing.description.clone(),
    };
    let proto_files = match &update.proto_files {
        Some(f) => clone_strings(f),
        None => clone_strings(&existing.proto_files),
    };
    let default_environment_id = match &update.default_environment_id {
        Some(d) => Some(d.clone()),
        None => existing.default_environment_id.clone(),
    };
    Project {
        id: existing.id.clone(),
        name,
        description,
        default_environment_id,
        proto_files,
        created_at: existing.created_at,
        updated_at: now,
    }
}

/// The record of a clone of `source` named `new_name`, with id `new_id`
/// at `now`: same description and proto files, no default environment yet;
/// a blank name is rejected.
pub fn cloned_project_record(source: &Project, new_id: String, new_name: &str, now: i64) -> (r: Result<Project, StorageError>)
    ensures
        trimmed(new_name@).len() == 0 ==> (r matches Err(StorageError::InvalidInput(m)) && m@
            == "New name is required"@),
        trimmed(new_name@).len() > 0 ==> (r matches Ok(p) && p.id@ == new_id@ && p.name@ == new_name@
            && p.description@ == source.description@ && p.default_environment_id is None
            && p.proto_files@ == source.proto_files@ && p.created_at == now && p.updated_at == now),
{
    match require_name(new_name, "New name is required") {
        Err(e) => Err(e),
        Ok(()) => Ok(Project {
            id: new_id,
            name: String::from_str(new_name),
            description: source.description.clone(),
            default_environment_id: None,
            proto_files: clone_strings(&source.proto_files),
            created_at: now,
            updated_at: now,
        }),
    }
}

/// The environment reference of a cloned request: the clone of the
/// referenced environment, or none when it was not cloned.
pub open spec fn remapped_environment(old: Option<Seq<char>>, env_map: Map<Seq<char>, Seq<char>>) -> Option<Seq<char>> {
    match old {
        None => None,
        Some(e) => if env_map.contains_key(e) {
            Some(env_map[e])
        } else {
            None
        },
    }
}

/// Whether `new` is a clone of `old` under `env_map`: a fresh storage id,
/// the same content, and the environment reference remapped.
pub open spec fn is_request_clone(old: RequestItem, new: RequestItem, env_map: Map<Seq<char>, Seq<char>>) -> bool {
    &&& is_storage_id(new.id@)
    &&& new.same_content(&old)
    &&& opt_text(new.environment_id) == remapped_environment(opt_text(old.environment_id), env_map)
}

/// Clones saved requests into another project: each gets a fresh id, and
/// its environment reference follows `env_id_map` (dropped when the
/// referenced environment was not cloned).
pub fn clone_request_items(items: &Vec<RequestItem>, env_id_map: &StringMap) -> (r: Vec<RequestItem>)
    ensures
        r@.len() == items@.len(),
        forall|i: int| 0 <= i < items@.len() ==> is_request_clone(#[trigger] items@[i], r@[i], env_id_map@),
{
    let mut out: Vec<RequestItem> = Vec::new();
    let mut i: usize = 0;
    while i < items.len()
        invariant
            i <= items@.len(),
            out@.len() == i,
            forall|j: int| 0 <= j < i ==> is_request_clone(#[trigger] items@[j], out@[j], env_id_map@),
        decreases items@.len() - i,
    {
        let mut item = items[i].duplicate();
        item.id = new_storage_id();
        let environment_id = match &items[i].environment_id {
            Some(env_id) => match env_id_map.get(env_id.as_str()) {
                Some(mapped) => Some(mapped.clone()),
                None => None,
            },
            None => None,
        };
        item.environment_id = environment_id;
        out.push(item);
        i = i + 1;
    }
    out
}

/// The default environment of a cloned project: the clone of the source's
/// default, when that environment was cloned.
pub fn cloned_default_environment(source_default: &Option<String>, env_id_map: &StringMap) -> (r: Option<String>)
    ensures
        opt_text(r) == remapped_environment(opt_text(*source_default), env_id_map@),
{
    match source_default {
        Some(d) => match env_id_map.get(d.as_str()) {
            Some(m) => Some(m.clone()),
            None => None,
        },
        None => None,
    }
}

/// Maps each environment id of the source project to a fresh id.
pub fn environment_id_map(source_ids: &Vec<String>) -> (m: StringMap)
    ensures
        forall|k: Seq<char>| #[trigger] m@.contains_key(k) <==> exists|i: int| 0 <= i < source_ids@.len() && source_ids@[i]@ == k,
        forall|k: Seq<char>| #[trigger] m@.contains_key(k) ==> is_storage_id(m@[k]),
{
    let mut m = StringMap::new();
    let mut i: usize = 0;
    while i < source_ids.len()
        invariant
            i <= source_ids@.len(),
            forall|k: Seq<char>| #[trigger] m@.contains_key(k) <==> exists|j: int| 0 <= j < i && source_ids@[j]@ == k,
            forall|k: Seq<char>| #[trigger] m@.contains_key(k) ==> is_storage_id(m@[k]),
        decreases source_ids@.len() - i,
    {
        let fresh = new_storage_id();
        m.insert(source_ids[i].clone(), fresh);
        proof {
            assert forall|k: Seq<char>| #[trigger] m@.contains_key(k) implies exists|j: int| 0 <= j < i + 1 && source_ids@[j]@ == k by {
                if k != source_ids@[i as int]@ {
                    let j = choose|j: int| 0 <= j < i && source_ids@[j]@ == k;
                    assert(0 <= j < i + 1 && source_ids@[j]@ == k);
                } else {
                    assert(source_ids@[i as int]@ == k);
                }
            }
            assert forall|k: Seq<char>| (exists|j: int| 0 <= j < i + 1 && source_ids@[j]@ == k) implies #[trigger] m@.contains_key(k) by {
                let j = choose|j: int| 0 <= j < i + 1 && source_ids@[j]@ == k;
                if j < i {
                    assert(exists|j2: int| 0 <= j2 < i && source_ids@[j2]@ == k);
                }
            }
        }
        i = i + 1;
    }
    m
}

/// The copy of a collection in the cloned project: fresh collection and
/// folder ids, the target project, `now` as both times, and every request
/// cloned with its environment reference remapped.
pub fn cloned_collection(source: &Collection, target_project_id: &str, env_id_map: &StringMap, now: i64) -> (c: Collection)
    ensures
        is_storage_id(c.id@),
        c.project_id@ == target_project_id@,
        c.name@ == source.name@,
        c.created_at == now,
        c.updated_at == now,
        c.items@.len() == source.items@.len(),
        forall|i: int| 0 <= i < source.items@.len() ==> is_request_clone(#[trigger] source.items@[i], c.items@[i], env_id_map@),
        c.folders@.len() == source.folders@.len(),
        forall|f: int| 0 <= f < source.folders@.len() ==> {
            &&& is_storage_id(#[trigger] c.folders@[f].id@)
            &&& c.folders@[f].name@ == source.folders@[f].name@
            &&& c.folders@[f].items@.len() == source.folders@[f].items@.len()
            &&& forall|i: int| 0 <= i < source.folders@[f].items@.len() ==> is_request_clone(
                #[trigger] source.folders@[f].items@[i],
                c.folders@[f].items@[i],
                env_id_map@,
            )
        },
{
    let mut folders: Vec<Folder> = Vec::new();
    let mut f: usize = 0;
    while f < source.folders.len()
        invariant
            f <= source.folders@.len(),
            folders@.len() == f,
            forall|g: int| 0 <= g < f ==> {
                &&& is_storage_id(#[trigger] folders@[g].id@)
                &&& folders@[g].name@ == source.folders@[g].name@
                &&& folders@[g].items@.len() == source.folders@[g].items@.len()
                &&& forall|i: int| 0 <= i < source.folders@[g].items@.len() ==> is_request_clone(
                    #[trigger] source.folders@[g].items@[i],
                    folders@[g].items@[i],
                    env_id_map@,
                )
            },
        decreases source.folders@.len() - f,
    {
        let folder = Folder {
            id: new_storage_id(),
            name: source.folders[f].name.clone(),
            items: clone_request_items(&source.folders[f].items, env_id_map),
        };
        folders.push(folder);
        f = f + 1;
    }
    Collection {
        id: new_storage_id(),
        project_id: String::from_str(target_project_id),
        name: source.name.clone(),
        folders,
        items: clone_request_items(&source.items, env_id_map),
        created_at: now,
        updated_at: now,
    }
}

/// A cloned request refers to the clone of its environment: when the
/// environment it referred to was cloned (its id is a key of the map), the
/// clone refers to the new id; and a clone never refers to an id that is
/// not one of the new ids. Name, body and the rest of its content stay.
pub proof fn lemma_cloned_request_follows_environment_map(
    old: RequestItem,
    new: RequestItem,
    env_map: Map<Seq<char>, Seq<char>>,
)
    requires
        is_request_clone(old, new, env_map),
    ensures
        forall|e: Seq<char>|
            opt_text(old.environment_id) == Some(e) && #[trigger] env_map.contains_key(e)
                ==> opt_text(new.environment_id) == Some(env_map[e]),
        opt_text(new.environment_id) is Some ==> exists|k: Seq<char>|
            #[trigger] env_map.contains_key(k) && env_map[k] == opt_text(new.environment_id)->Some_0,
        old.environment_id is None ==> new.environment_id is None,
        new.body@ == old.body@,
        new.name@ == old.name@,
        new.service@ == old.service@,
        new.method@ == old.method@,
        new.metadata@ == old.metadata@,
{
    if opt_text(new.environment_id) is Some {
        let e = opt_text(old.environment_id)->Some_0;
        assert(env_map.contains_key(e) && env_map[e] == opt_text(new.environment_id)->Some_0);
    }
}

/// A cloned project's default environment is the clone of the source's
/// default when that one was cloned, and never an id that is not one of
/// the new ids.
pub proof fn lemma_cloned_default_follows_environment_map(
    source_default: Option<Seq<char>>,
    cloned: Option<Seq<char>>,
    env_map: Map<Seq<char>, Seq<char>>,
)
    requires
        cloned == remapped_environment(source_default, env_map),
    ensures
        forall|d: Seq<char>|
            source_default == Some(d) && #[trigger] env_map.contains_key(d) ==> cloned == Some(env_map[d]),
        cloned is Some ==> exists|k: Seq<char>|
            #[trigger] env_map.contains_key(k) && env_map[k] == cloned->Some_0,
        source_default is None ==> cloned is None,
{
    if cloned is Some {
        let d = source_default->Some_0;
        assert(env_map.contains_key(d) && env_map[d] == cloned->Some_0);
    }
}

} // verus!

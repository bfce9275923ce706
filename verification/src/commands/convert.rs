//! The saved-request shapes of the user interface and their conversion to
//! and from the stored records.

use vstd::prelude::*;
use crate::grpc::metadata::StringMap;
use crate::storage::models::{
    Folder as StoredFolder, RequestItem as StoredRequestItem, Collection as StoredCollection,
    Project as StoredProject, History as StoredHistory, TLSConfig, CreateCollection, UpdateCollection,
    CreateProject, UpdateProject, CreateEnvironment, UpdateEnvironment, CreateHistory,
};
use crate::text::{decimal_int, push_decimal_i64};

verus! {

/// A saved request as the user interface sees it.
#[derive(Debug, Clone)]
pub struct RequestItem {
    pub id: String,
    pub name: String,
    /// The call kind ("unary", "server_stream", ...).
    pub item_type: String,
    pub service: String,
    pub method: String,
    pub body: String,
    pub metadata: StringMap,
    pub env_ref_type: Option<String>,
    pub environment_id: Option<String>,
}

/// A folder of saved requests as the user interface sees it.
#[derive(Debug, Clone)]
pub struct Folder {
    pub id: String,
    pub name: String,
    pub items: Vec<RequestItem>,
}

/// The stored form of a saved request: the same fields.
pub open spec fn stored_request_item(x: RequestItem) -> StoredRequestItem {
    StoredRequestItem {
        id: x.id,
        name: x.name,
        item_type: x.item_type,
        service: x.service,
        method: x.method,
        body: x.body,
        metadata: x.metadata,
        env_ref_type: x.env_ref_type,
        environment_id: x.environment_id,
    }
}

/// The user-interface form of a stored request: the same fields.
pub open spec fn shown_request_item(x: StoredRequestItem) -> RequestItem {
    RequestItem {
        id: x.id,
        name: x.name,
        item_type: x.item_type,
        service: x.service,
        method: x.method,
        body: x.body,
        metadata: x.metadata,
        env_ref_type: x.env_ref_type,
        environment_id: x.environment_id,
    }
}

/// Converts a saved request to its stored form.
pub fn convert_request_item(item: RequestItem) -> (r: StoredRequestItem)
    ensures
        r == stored_request_item(item),
{
    StoredRequestItem {
        id: item.id,
        name: item.name,
        item_type: item.item_type,
        service: item.service,
        method: item.method,
        body: item.body,
        metadata: item.metadata,
        env_ref_type: item.env_ref_type,
        environment_id: item.environment_id,
    }
}

/// Converts a stored request to the form the user interface sees.
pub fn convert_storage_request_item(item: StoredRequestItem) -> (r: RequestItem)
    ensures
        r == shown_request_item(item),
{
    RequestItem {
        id: item.id,
        name: item.name,
        item_type: item.item_type,
        service: item.service,
        method: item.method,
        body: item.body,
        metadata: item.metadata,
        env_ref_type: item.env_ref_type,
        environment_id: item.environment_id,
    }
}

/// Whether `s` is the stored form of the folder `f`.
pub open spec fn stored_folder_of(f: Folder, s: StoredFolder) -> bool {
    &&& s.id == f.id
    &&& s.name == f.name
    &&& s.items@ == f.items@.map_values(|x: RequestItem| stored_request_item(x))
}

/// Whether `f` is the user-interface form of the stored folder `s`.
pub open spec fn shown_folder_of(s: StoredFolder, f: Folder) -> bool {
    &&& f.id == s.id
    &&& f.name == s.name
    &&& f.items@ == s.items@.map_values(|x: StoredRequestItem| shown_request_item(x))
}

/// Converts a folder to its stored form, request by request.
pub fn convert_folder(folder: Folder) -> (r: StoredFolder)
    ensures
        stored_folder_of(folder, r),
{
    let ghost src = folder.items@;
    let mut items: Vec<StoredRequestItem> = Vec::new();
    for x in it: folder.items.into_iter()
        invariant
            it.seq() == src,
            items@ == src.take(it.index() as int).map_values(|x: RequestItem| stored_request_item(x)),
    {
        items.push(convert_request_item(x));
        proof {
            assert(items@ =~= src.take(it.index() + 1).map_values(|x: RequestItem| stored_request_item(x)));
        }
    }
    proof {
        assert(src.take(src.len() as int) =~= src);
    }
    StoredFolder { id: folder.id, name: folder.name, items }
}


/// Converts a stored folder to the form the user interface sees, request
/// by request.
pub fn convert_storage_folder(folder: StoredFolder) -> (r: Folder)
    ensures
        shown_folder_of(folder, r),
{
    let ghost src = folder.items@;
    let mut items: Vec<RequestItem> = Vec::new();
    for x in it: folder.items.into_iter()
        invariant
            it.seq() == src,
            items@ == src.take(it.index() as int).map_values(|x: StoredRequestItem| shown_request_item(x)),
    {
        items.push(convert_storage_request_item(x));
        proof {
            assert(items@ =~= src.take(it.index() + 1).map_values(|x: StoredRequestItem| shown_request_item(x)));
        }
    }
    proof {
        assert(src.take(src.len() as int) =~= src);
    }
    Folder { id: folder.id, name: folder.name, items }
}

/// Storing a saved request and showing it again gives it back unchanged,
/// and so does showing a stored request and storing it again.
pub proof fn lemma_request_item_round_trip(x: RequestItem, y: StoredRequestItem)
    ensures
        shown_request_item(stored_request_item(x)) == x,
        stored_request_item(shown_request_item(y)) == y,
{
}

/// Storing a folder and showing the stored folder again gives back its
/// id, its name and its requests in order.
pub proof fn lemma_folder_round_trip(f: Folder, s: StoredFolder, g: Folder)
    requires
        stored_folder_of(f, s),
        shown_folder_of(s, g),
    ensures
        g.id == f.id,
        g.name == f.name,
        g.items@ == f.items@,
{
    assert forall|i: int| 0 <= i < f.items@.len() implies g.items@[i] == f.items@[i] by {
        lemma_request_item_round_trip(f.items@[i], s.items@[i]);
    }
    assert(g.items@ =~= f.items@);
}

/// Converts folders to their stored form, in order.
pub fn convert_folders(folders: Vec<Folder>) -> (r: Vec<StoredFolder>)
    ensures
        r@.len() == folders@.len(),
        forall|i: int| 0 <= i < r@.len() ==> stored_folder_of(#[trigger] folders@[i], r@[i]),
{
    let ghost src = folders@;
    let mut out: Vec<StoredFolder> = Vec::new();
    for x in it: folders.into_iter()
        invariant
            it.seq() == src,
            out@.len() == it.index(),
            forall|i: int| 0 <= i < out@.len() ==> stored_folder_of(#[trigger] src[i], out@[i]),
    {
        out.push(convert_folder(x));
    }
    out
}

/// Converts stored folders to the form the user interface sees, in order.
pub fn convert_storage_folders(folders: Vec<StoredFolder>) -> (r: Vec<Folder>)
    ensures
        r@.len() == folders@.len(),
        forall|i: int| 0 <= i < r@.len() ==> shown_folder_of(#[trigger] folders@[i], r@[i]),
{
    let ghost src = folders@;
    let mut out: Vec<Folder> = Vec::new();
    for x in it: folders.into_iter()
        invariant
            it.seq() == src,
            out@.len() == it.index(),
            forall|i: int| 0 <= i < out@.len() ==> shown_folder_of(#[trigger] src[i], out@[i]),
    {
        out.push(convert_storage_folder(x));
    }
    out
}

/// Converts saved requests to their stored form, in order.
pub fn convert_request_items(items: Vec<RequestItem>) -> (r: Vec<StoredRequestItem>)
    ensures
        r@ == items@.map_values(|x: RequestItem| stored_request_item(x)),
{
    let ghost src = items@;
    let mut out: Vec<StoredRequestItem> = Vec::new();
    for x in it: items.into_iter()
        invariant
            it.seq() == src,
            out@ == src.take(it.index() as int).map_values(|x: RequestItem| stored_request_item(x)),
    {
        out.push(convert_request_item(x));
        proof {
            assert(out@ =~= src.take(it.index() + 1).map_values(|x: RequestItem| stored_request_item(x)));
        }
    }
    proof {
        assert(src.take(src.len() as int) =~= src);
    }
    out
}

/// Converts stored requests to the form the user interface sees, in order.
pub fn convert_storage_request_items(items: Vec<StoredRequestItem>) -> (r: Vec<RequestItem>)
    ensures
        r@ == items@.map_values(|x: StoredRequestItem| shown_request_item(x)),
{
    let ghost src = items@;
    let mut out: Vec<RequestItem> = Vec::new();
    for x in it: items.into_iter()
        invariant
            it.seq() == src,
            out@ == src.take(it.index() as int).map_values(|x: StoredRequestItem| shown_request_item(x)),
    {
        out.push(convert_storage_request_item(x));
        proof {
            assert(out@ =~= src.take(it.index() + 1).map_values(|x: StoredRequestItem| shown_request_item(x)));
        }
    }
    proof {
        assert(src.take(src.len() as int) =~= src);
    }
    out
}

/// The decimal notation of a timestamp in milliseconds.
pub fn millis_text(ms: i64) -> (r: String)
    ensures
        r@ == decimal_int(ms as int),
{
    let mut r = String::new();
    push_decimal_i64(&mut r, ms);
    r
}

/// A collection as the user interface sees it.
#[derive(Debug, Clone)]
pub struct Collection {
    pub id: String,
    pub project_id: Option<String>,
    pub name: String,
    pub folders: Vec<Folder>,
    pub items: Vec<RequestItem>,
    pub created_at: Option<String>,
    pub updated_at: Option<String>,
}

/// A project as the user interface sees it.
#[derive(Debug, Clone)]
pub struct Project {
    pub id: String,
    pub name: String,
    pub description: String,
    pub default_environment_id: Option<String>,
    pub proto_files: Option<Vec<String>>,
    pub created_at: Option<String>,
    pub updated_at: Option<String>,
}

/// An environment as the user interface sees it, its TLS settings already
/// read.
#[derive(Debug, Clone)]
pub struct Environment {
    pub id: String,
    pub project_id: Option<String>,
    pub name: String,
    pub base_url: String,
    pub variables: StringMap,
    pub headers: StringMap,
    pub tls_config: Option<TLSConfig>,
    pub is_default: bool,
    pub created_at: Option<String>,
    pub updated_at: Option<String>,
}

/// A recorded call as the user interface sees it.
#[derive(Debug)]
pub struct History {
    pub id: String,
    pub project_id: Option<String>,
    pub timestamp: u64,
    pub service: String,
    pub method: String,
    pub address: String,
    pub status: String,
    pub response_code: Option<i32>,
    pub response_message: Option<String>,
    pub duration: u64,
    pub request_snapshot: RequestItem,
}

/// What saving a record does: update the one that exists, or create it.
#[derive(Debug)]
pub enum SaveAction<U, C> {
    Update(U),
    Create(C),
}

/// The error of creating a record that names no project.
pub open spec fn missing_project_message() -> Seq<char> {
    "Project ID is required"@
}

/// Whether `t` is `Some` of the decimal notation of `ms`.
pub open spec fn timestamp_text(t: Option<String>, ms: i64) -> bool {
    t is Some && t->Some_0@ == decimal_int(ms as int)
}

/// Shows a stored collection: the same fields, its project id as present,
/// its folders and requests converted and its timestamps in decimal.
pub fn show_collection(c: StoredCollection) -> (r: Collection)
    ensures
        r.id == c.id,
        r.project_id == Some(c.project_id),
        r.name == c.name,
        r.folders@.len() == c.folders@.len(),
        forall|i: int| 0 <= i < r.folders@.len() ==> shown_folder_of(#[trigger] c.folders@[i], r.folders@[i]),
        r.items@ == c.items@.map_values(|x: StoredRequestItem| shown_request_item(x)),
        timestamp_text(r.created_at, c.created_at),
        timestamp_text(r.updated_at, c.updated_at),
{
    let created = millis_text(c.created_at);
    let updated = millis_text(c.updated_at);
    Collection {
        id: c.id,
        project_id: Some(c.project_id),
        name: c.name,
        folders: convert_storage_folders(c.folders),
        items: convert_storage_request_items(c.items),
        created_at: Some(created),
        updated_at: Some(updated),
    }
}

/// What saving a collection does: when it exists, an update of its name,
/// folders and requests; else a creation, which needs a project id.
pub fn plan_collection_save(c: Collection, exists: bool) -> (r: Result<SaveAction<UpdateCollection, CreateCollection>, String>)
    ensures
        exists ==> r is Ok && r->Ok_0 is Update && ({
            let u = r->Ok_0->Update_0;
            &&& u.name == Some(c.name)
            &&& u.folders is Some && u.folders->Some_0@.len() == c.folders@.len()
            &&& (forall|i: int| 0 <= i < c.folders@.len() ==> stored_folder_of(#[trigger] c.folders@[i], u.folders->Some_0@[i]))
            &&& u.items is Some && u.items->Some_0@ == c.items@.map_values(|x: RequestItem| stored_request_item(x))
        }),
        !exists && c.project_id is None ==> r is Err && r->Err_0@ == missing_project_message(),
        !exists && c.project_id is Some ==> r is Ok && r->Ok_0 is Create && ({
            let k = r->Ok_0->Create_0;
            &&& k.project_id == c.project_id->Some_0
            &&& k.name == c.name
            &&& k.folders@.len() == c.folders@.len()
            &&& (forall|i: int| 0 <= i < c.folders@.len() ==> stored_folder_of(#[trigger] c.folders@[i], k.folders@[i]))
            &&& k.items@ == c.items@.map_values(|x: RequestItem| stored_request_item(x))
        }),
{
    if exists {
        let folders = convert_folders(c.folders);
        let items = convert_request_items(c.items);
        Ok(SaveAction::Update(UpdateCollection { name: Some(c.name), folders: Some(folders), items: Some(items) }))
    } else {
        match c.project_id {
            None => Err(String::from_str("Project ID is required")),
            Some(project_id) => {
                let folders = convert_folders(c.folders);
                let items = convert_request_items(c.items);
                Ok(SaveAction::Create(CreateCollection { project_id, name: c.name, folders, items }))
            },
        }
    }
}

/// Shows a stored project: the same fields, its proto files as present and
/// its timestamps in decimal.
pub fn show_project(p: StoredProject) -> (r: Project)
    ensures
        r.id == p.id,
        r.name == p.name,
        r.description == p.description,
        r.default_environment_id == p.default_environment_id,
        r.proto_files == Some(p.proto_files),
        timestamp_text(r.created_at, p.created_at),
        timestamp_text(r.updated_at, p.updated_at),
{
    let created = millis_text(p.created_at);
    let updated = millis_text(p.updated_at);
    Project {
        id: p.id,
        name: p.name,
        description: p.description,
        default_environment_id: p.default_environment_id,
        proto_files: Some(p.proto_files),
        created_at: Some(created),
        updated_at: Some(updated),
    }
}

/// The creation input of a project: its name, description and proto files
/// (none when absent).
pub fn project_creation(p: Project) -> (r: CreateProject)
    ensures
        r.name == p.name,
        r.description == p.description,
        p.proto_files is Some ==> r.proto_files == p.proto_files->Some_0,
        p.proto_files is None ==> r.proto_files@.len() == 0,
{
    let proto_files = match p.proto_files {
        Some(v) => v,
        None => Vec::new(),
    };
    CreateProject { name: p.name, description: p.description, proto_files }
}

/// The update of a project: its name and description always, its proto
/// files and default environment as given.
pub fn project_update(p: Project) -> (r: UpdateProject)
    ensures
        r.name == Some(p.name),
        r.description == Some(p.description),
        r.proto_files == p.proto_files,
        r.default_environment_id == p.default_environment_id,
{
    UpdateProject {
        name: Some(p.name),
        description: Some(p.description),
        proto_files: p.proto_files,
        default_environment_id: p.default_environment_id,
    }
}

/// What saving an environment does: when it exists, an update of every
/// field; else a creation, which needs a project id.
pub fn plan_environment_save(e: Environment, exists: bool) -> (r: Result<SaveAction<UpdateEnvironment, CreateEnvironment>, String>)
    ensures
        exists ==> r is Ok && r->Ok_0 is Update && ({
            let u = r->Ok_0->Update_0;
            &&& u.name == Some(e.name)
            &&& u.base_url == Some(e.base_url)
            &&& u.variables == Some(e.variables)
            &&& u.headers == Some(e.headers)
            &&& u.tls_config == Some(e.tls_config)
            &&& u.is_default == Some(e.is_default)
        }),
        !exists && e.project_id is None ==> r is Err && r->Err_0@ == missing_project_message(),
        !exists && e.project_id is Some ==> r is Ok && r->Ok_0 is Create && ({
            let k = r->Ok_0->Create_0;
            &&& k.project_id == e.project_id->Some_0
            &&& k.name == e.name
            &&& k.base_url == e.base_url
            &&& k.variables == e.variables
            &&& k.headers == e.headers
            &&& k.tls_config == e.tls_config
            &&& k.is_default == e.is_default
        }),
{
    if exists {
        Ok(SaveAction::Update(UpdateEnvironment {
            name: Some(e.name),
            base_url: Some(e.base_url),
            variables: Some(e.variables),
            headers: Some(e.headers),
            tls_config: Some(e.tls_config),
            is_default: Some(e.is_default),
        }))
    } else {
        match e.project_id {
            None => Err(String::from_str("Project ID is required")),
            Some(project_id) => Ok(SaveAction::Create(CreateEnvironment {
                project_id,
                name: e.name,
                base_url: e.base_url,
                variables: e.variables,
                headers: e.headers,
                tls_config: e.tls_config,
                is_default: e.is_default,
            })),
        }
    }
}

/// The record of a call to add: its fields, the timestamp and duration
/// taken as signed values (as `as` casts them) and the request stored.
pub fn history_creation(h: History) -> (r: CreateHistory)
    ensures
        r.project_id == h.project_id,
        r.timestamp == h.timestamp as i64,
        r.service == h.service,
        r.method == h.method,
        r.address == h.address,
        r.status == h.status,
        r.response_code == h.response_code,
        r.response_message == h.response_message,
        r.duration == h.duration as i64,
        r.request_snapshot == stored_request_item(h.request_snapshot),
{
    CreateHistory {
        project_id: h.project_id,
        timestamp: h.timestamp as i64,
        service: h.service,
        method: h.method,
        address: h.address,
        status: h.status,
        response_code: h.response_code,
        response_message: h.response_message,
        duration: h.duration as i64,
        request_snapshot: convert_request_item(h.request_snapshot),
    }
}

/// Shows a recorded call: its fields, the timestamp and duration taken as
/// unsigned values (as `as` casts them) and the request converted.
pub fn show_history(h: StoredHistory) -> (r: History)
    ensures
        r.id == h.id,
        r.project_id == h.project_id,
        r.timestamp == h.timestamp as u64,
        r.service == h.service,
        r.method == h.method,
        r.address == h.address,
        r.status == h.status,
        r.response_code == h.response_code,
        r.response_message == h.response_message,
        r.duration == h.duration as u64,
        r.request_snapshot == shown_request_item(h.request_snapshot),
{
    History {
        id: h.id,
        project_id: h.project_id,
        timestamp: h.timestamp as u64,
        service: h.service,
        method: h.method,
        address: h.address,
        status: h.status,
        response_code: h.response_code,
        response_message: h.response_message,
        duration: h.duration as u64,
        request_snapshot: convert_storage_request_item(h.request_snapshot),
    }
}

} // verus!

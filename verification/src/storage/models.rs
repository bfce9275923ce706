//! The stored records and the inputs that create and update them.
//! Timestamps are milliseconds since the Unix epoch.

use vstd::prelude::*;
use crate::grpc::metadata::StringMap;
use rand::RngCore;
use crate::grpc::metadata::opt_text;

verus! {

/// A project: a named set of proto files with its environments.
#[derive(Debug, Clone)]
pub struct Project {
    pub id: String,
    pub name: String,
    pub description: String,
    pub default_environment_id: Option<String>,
    pub proto_files: Vec<String>,
    pub created_at: i64,
    pub updated_at: i64,
}

/// An environment: a base URL with variables, headers and TLS settings.
#[derive(Debug, Clone)]
pub struct Environment {
    pub id: String,
    pub project_id: String,
    pub name: String,
    pub base_url: String,
    pub variables: StringMap,
    pub headers: StringMap,
    pub tls_config: Option<TLSConfig>,
    pub is_default: bool,
    pub created_at: i64,
    pub updated_at: i64,
}

/// TLS settings of an environment.
#[derive(Debug, Clone)]
pub struct TLSConfig {
    pub enabled: bool,
    pub ca_file: Option<String>,
    pub cert_file: Option<String>,
    pub key_file: Option<String>,
    pub server_name: Option<String>,
    pub insecure: bool,
}

/// A saved collection of requests.
#[derive(Debug, Clone)]
pub struct Collection {
    pub id: String,
    pub project_id: String,
    pub name: String,
    pub folders: Vec<Folder>,
    pub items: Vec<RequestItem>,
    pub created_at: i64,
    pub updated_at: i64,
}

/// A folder of saved requests.
#[derive(Debug, Clone)]
pub struct Folder {
    pub id: String,
    pub name: String,
    pub items: Vec<RequestItem>,
}

/// A saved request.
#[derive(Debug, Clone)]
pub struct RequestItem {
    pub id: String,
    pub name: String,
    pub item_type: String,
    pub service: String,
    pub method: String,
    pub body: String,
    pub metadata: StringMap,
    pub env_ref_type: Option<String>,
    pub environment_id: Option<String>,
}

/// A recorded call.
#[derive(Debug, Clone)]
pub struct History {
    pub id: String,
    pub project_id: Option<String>,
    pub timestamp: i64,
    pub service: String,
    pub method: String,
    pub address: String,
    pub status: String,
    pub response_code: Option<i32>,
    pub response_message: Option<String>,
    pub duration: i64,
    pub request_snapshot: RequestItem,
    pub created_at: i64,
}

/// A call to record, as given to a batch insert.
#[derive(Debug, Clone)]
pub struct HistoryEntry {
    pub id: String,
    pub project_id: Option<String>,
    pub timestamp: i64,
    pub service: String,
    pub method: String,
    pub address: String,
    pub status: String,
    pub response_code: Option<i32>,
    pub response_message: Option<String>,
    pub duration: i64,
    pub request_snapshot: RequestItem,
}

/// History search filters.
#[derive(Debug, Default)]
pub struct Filters {
    pub service: Option<String>,
    pub method: Option<String>,
    pub status: Option<String>,
    pub start_time: Option<i64>,
    pub end_time: Option<i64>,
    pub limit: Option<i64>,
    pub offset: Option<i64>,
}

/// Input of creating a project.
#[derive(Debug, Clone)]
pub struct CreateProject {
    pub name: String,
    pub description: String,
    pub proto_files: Vec<String>,
}

/// Input of updating a project; absent fields keep their value.
#[derive(Debug, Clone, Default)]
pub struct UpdateProject {
    pub name: Option<String>,
    pub description: Option<String>,
    pub proto_files: Option<Vec<String>>,
    pub default_environment_id: Option<String>,
}

/// Input of creating an environment.
#[derive(Debug, Clone)]
pub struct CreateEnvironment {
    pub project_id: String,
    pub name: String,
    pub base_url: String,
    pub variables: StringMap,
    pub headers: StringMap,
    pub tls_config: Option<TLSConfig>,
    pub is_default: bool,
}

/// Input of updating an environment; absent fields keep their value.
#[derive(Debug, Clone, Default)]
pub struct UpdateEnvironment {
    pub name: Option<String>,
    pub base_url: Option<String>,
    pub variables: Option<StringMap>,
    pub headers: Option<StringMap>,
    pub tls_config: Option<Option<TLSConfig>>,
    pub is_default: Option<bool>,
}

/// Input of creating a collection.
#[derive(Debug, Clone)]
pub struct CreateCollection {
    pub project_id: String,
    pub name: String,
    pub folders: Vec<Folder>,
    pub items: Vec<RequestItem>,
}

/// Input of updating a collection; absent fields keep their value.
#[derive(Debug, Clone, Default)]
pub struct UpdateCollection {
    pub name: Option<String>,
    pub folders: Option<Vec<Folder>>,
    pub items: Option<Vec<RequestItem>>,
}

/// Input of recording a call.
#[derive(Debug, Clone)]
pub struct CreateHistory {
    pub project_id: Option<String>,
    pub timestamp: i64,
    pub service: String,
    pub method: String,
    pub address: String,
    pub status: String,
    pub response_code: Option<i32>,
    pub response_message: Option<String>,
    pub duration: i64,
    pub request_snapshot: RequestItem,
}

/// The lowercase hexadecimal digit for `n` (`n < 16`).
pub open spec fn hex_digit(n: nat) -> char {
    if n < 10 {
        ((48 + n) as u8) as char
    } else {
        ((87 + n) as u8) as char
    }
}

/// Lowercase hexadecimal notation of `b`: two digits per byte, high nibble
/// first.
pub open spec fn hex_of(b: Seq<u8>) -> Seq<char>
    decreases b.len(),
{
    if b.len() == 0 {
        Seq::empty()
    } else {
        hex_of(b.drop_last()) + seq![hex_digit((b.last() / 16) as nat), hex_digit((b.last() % 16) as nat)]
    }
}

/// Whether `s` is a storage id: 32 lowercase hexadecimal digits, the
/// notation of 16 bytes.
pub open spec fn is_storage_id(s: Seq<char>) -> bool {
    exists|b: Seq<u8>| b.len() == 16 && #[trigger] hex_of(b) == s
}

/// Sixteen random bytes.
///
/// Fills an array from `rand::thread_rng()`; the bytes are random, so
/// nothing is stated of them.
#[verifier::external_body]
fn random_bytes_16() -> [u8; 16] {
    let mut bytes = [0u8; 16];
    rand::thread_rng().fill_bytes(&mut bytes);
    bytes
}

/// Hexadecimal notation of `bytes`.
///
/// Calls `hex::encode`, which emits, for each byte in order, the digit of
/// its high nibble then that of its low nibble, from the table
/// `0123456789abcdef`.
#[verifier::external_body]
fn hex_encode(bytes: &[u8]) -> (r: String)
    ensures
        r@ == hex_of(bytes@),
{
    hex::encode(bytes)
}

/// A new random storage id (32 lowercase hexadecimal digits).
pub fn new_storage_id() -> (r: String)
    ensures
        is_storage_id(r@),
{
    let bytes = random_bytes_16();
    let r = hex_encode(&bytes);
    assert(bytes@.len() == 16);
    r
}


/// A copy of a vector of strings.
pub fn clone_strings(v: &Vec<String>) -> (r: Vec<String>)
    ensures
        r@ == v@,
{
    let mut r: Vec<String> = Vec::new();
    let mut i: usize = 0;
    while i < v.len()
        invariant
            i <= v@.len(),
            r@ == v@.subrange(0, i as int),
        decreases v@.len() - i,
    {
        r.push(v[i].clone());
        i = i + 1;
        assert(r@ =~= v@.subrange(0, i as int));
    }
    assert(r@ =~= v@);
    r
}

impl TLSConfig {
    /// Whether two TLS settings agree field for field.
    pub open spec fn same_as(&self, o: &TLSConfig) -> bool {
        &&& self.enabled == o.enabled
        &&& opt_text(self.ca_file) == opt_text(o.ca_file)
        &&& opt_text(self.cert_file) == opt_text(o.cert_file)
        &&& opt_text(self.key_file) == opt_text(o.key_file)
        &&& opt_text(self.server_name) == opt_text(o.server_name)
        &&& self.insecure == o.insecure
    }

    /// A copy of the settings.
    pub fn duplicate(&self) -> (r: TLSConfig)
        ensures
            r.same_as(self),
    {
        TLSConfig {
            enabled: self.enabled,
            ca_file: self.ca_file.clone(),
            cert_file: self.cert_file.clone(),
            key_file: self.key_file.clone(),
            server_name: self.server_name.clone(),
            insecure: self.insecure,
        }
    }
}

/// Whether two optional TLS settings agree.
pub open spec fn same_tls(a: Option<TLSConfig>, b: Option<TLSConfig>) -> bool {
    match (a, b) {
        (None, None) => true,
        (Some(x), Some(y)) => x.same_as(&y),
        _ => false,
    }
}

/// A copy of optional TLS settings.
pub fn duplicate_tls(t: &Option<TLSConfig>) -> (r: Option<TLSConfig>)
    ensures
        same_tls(r, *t),
{
    match t {
        Some(c) => Some(c.duplicate()),
        None => None,
    }
}

impl RequestItem {
    /// Whether two saved requests agree on everything but their ids and
    /// environment references.
    pub open spec fn same_content(&self, o: &RequestItem) -> bool {
        &&& self.name@ == o.name@
        &&& self.item_type@ == o.item_type@
        &&& self.service@ == o.service@
        &&& self.method@ == o.method@
        &&& self.body@ == o.body@
        &&& self.metadata@ == o.metadata@
        &&& opt_text(self.env_ref_type) == opt_text(o.env_ref_type)
    }

    /// Whether two saved requests agree field for field.
    pub open spec fn same_as(&self, o: &RequestItem) -> bool {
        &&& self.id@ == o.id@
        &&& self.same_content(o)
        &&& opt_text(self.environment_id) == opt_text(o.environment_id)
    }

    /// A copy of the request.
    pub fn duplicate(&self) -> (r: RequestItem)
        ensures
            r.same_as(self),
    {
        RequestItem {
            id: self.id.clone(),
            name: self.name.clone(),
            item_type: self.item_type.clone(),
            service: self.service.clone(),
            method: self.method.clone(),
            body: self.body.clone(),
            metadata: self.metadata.duplicate(),
            env_ref_type: self.env_ref_type.clone(),
            environment_id: self.environment_id.clone(),
        }
    }
}

} // verus!

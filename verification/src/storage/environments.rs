//! Environment rules: the created record and field-wise updates.

use vstd::prelude::*;
use crate::grpc::metadata::opt_text;
use crate::storage::error::StorageError;
use crate::storage::models::{Environment, CreateEnvironment, UpdateEnvironment, TLSConfig, same_tls, duplicate_tls};
use crate::storage::projects::require_name;
use crate::text::{trimmed, lowercase, spec_lowercase};
use vstd::string::StringExecFns;

verus! {

/// The record of an environment created from `create` with id `id` at
/// `now`; a blank name is rejected.
pub fn new_environment_record(create: &CreateEnvironment, id: String, now: i64) -> (r: Result<Environment, StorageError>)
    ensures
        trimmed(create.name@).len() == 0 ==> (r matches Err(StorageError::InvalidInput(m)) && m@
            == "Environment name is required"@),
        trimmed(create.name@).len() > 0 ==> (r matches Ok(e) && e.id@ == id@ && e.project_id@
            == create.project_id@ && e.name@ == create.name@ && e.base_url@ == create.base_url@
            && e.variables@ == create.variables@ && e.headers@ == create.headers@ && same_tls(
            e.tls_config,
            create.tls_config,
        ) && e.is_default == create.is_default && e.created_at == now && e.updated_at == now),
{
    match require_name(create.name.as_str(), "Environment name is required") {
        Err(e) => Err(e),
        Ok(()) => Ok(Environment {
            id,
            project_id: create.project_id.clone(),
            name: create.name.clone(),
            base_url: create.base_url.clone(),
            variables: create.variables.duplicate(),
            headers: create.headers.duplicate(),
            tls_config: duplicate_tls(&create.tls_config),
            is_default: create.is_default,
            created_at: now,
            updated_at: now,
        }),
    }
}

/// The TLS settings after an update: new settings replace the stored ones;
/// an update that gives none, or that gives "no settings", keeps them.
pub open spec fn updated_tls(update: Option<Option<TLSConfig>>, existing: Option<TLSConfig>) -> Option<TLSConfig> {
    match update {
        Some(Some(t)) => Some(t),
        _ => existing,
    }
}

/// The environment after `update` at `now`: every field the update gives
/// replaces the stored one, the others stay; the creation time stays.
pub fn updated_environment(existing: &Environment, update: &UpdateEnvironment, now: i64) -> (e: Environment)
    ensures
        e.id@ == existing.id@,
        e.project_id@ == existing.project_id@,
        e.name@ == (match update.name {
            Some(n) => n@,
            None => existing.name@,
        }),
        e.base_url@ == (match update.base_url {
            Some(b) => b@,
            None => existing.base_url@,
        }),
        e.variables@ == (match update.variables {
            Some(v) => v@,
            None => existing.variables@,
        }),
        e.headers@ == (match update.headers {
            Some(h) => h@,
            None => existing.headers@,
        }),
        same_tls(e.tls_config, updated_tls(update.tls_config, existing.tls_config)),
        e.is_default == (match update.is_default {
            Some(d) => d,
            None => existing.is_default,
        }),
        e.created_at == existing.created_at,
        e.updated_at == now,
{
    let name = match &update.name {
        Some(n) => n.clone(),
        None => existing.name.clone(),
    };
    let base_url = match &update.base_url {
        Some(b) => b.clone(),
        None => existing.base_url.clone(),
    };
    let variables = match &update.variables {
        Some(v) => v.duplicate(),
        None => existing.variables.duplicate(),
    };
    let headers = match &update.headers {
        Some(h) => h.duplicate(),
        None => existing.headers.duplicate(),
    };
    let tls_config = match &update.tls_config {
        Some(Some(t)) => Some(t.duplicate()),
        _ => duplicate_tls(&existing.tls_config),
    };
    let is_default = match update.is_default {
        Some(d) => d,
        None => existing.is_default,
    };
    Environment {
        id: existing.id.clone(),
        project_id: existing.project_id.clone(),
        name,
        base_url,
        variables,
        headers,
        tls_config,
        is_default,
        created_at: existing.created_at,
        updated_at: now,
    }
}

/// The `LIKE` pattern of an environment search for `query`: the query in
/// lowercase between two `%`, so that it matches anywhere in the lowercased
/// name or base URL.
pub fn environment_search_pattern(query: &str) -> (r: String)
    ensures
        r@ == "%"@ + spec_lowercase(query@) + "%"@,
{
    let l = lowercase(query);
    proof {
        reveal_strlit("%");
    }
    String::from_str("%").concat(l.as_str()).concat("%")
}

/// New TLS settings in an environment update are kept field for field; an
/// update that leaves them out, or clears them, keeps the stored ones.
pub proof fn lemma_update_keeps_given_tls(
    update: Option<Option<TLSConfig>>,
    existing: Option<TLSConfig>,
    result: Option<TLSConfig>,
)
    requires
        same_tls(result, updated_tls(update, existing)),
    ensures
        update matches Some(Some(t)) ==> (result matches Some(r) && r.enabled == t.enabled && opt_text(
            r.ca_file,
        ) == opt_text(t.ca_file) && opt_text(r.cert_file) == opt_text(t.cert_file) && opt_text(r.key_file)
            == opt_text(t.key_file) && opt_text(r.server_name) == opt_text(t.server_name) && r.insecure
            == t.insecure),
        !(update matches Some(Some(_))) ==> same_tls(result, existing),
{
}

} // verus!

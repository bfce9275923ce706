//! Where the application keeps its database.

use vstd::prelude::*;
use vstd::string::StringExecFns;
use crate::text::{trim_str, trimmed};

verus! {

/// The database path used when none is configured.
pub open spec fn default_db_path() -> Seq<char> {
    "grpcui.db"@
}

/// The database path, given the configured value (`GRPCUI_DB_PATH`, if
/// set): that value trimmed when something is left of it, else
/// "grpcui.db".
pub fn resolve_db_path(configured: Option<&str>) -> (r: String)
    ensures
        match configured {
            Some(c) if trimmed(c@).len() > 0 => r@ == trimmed(c@),
            _ => r@ == default_db_path(),
        },
{
    if let Some(c) = configured {
        let t = trim_str(c);
        if t.as_str().unicode_len() > 0 {
            return t;
        }
    }
    String::from_str("grpcui.db")
}

} // verus!

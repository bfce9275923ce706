//! gRPC client side: framing and status handling, metadata, streaming and
//! the client-level response shapes.

pub mod metadata;
pub mod transport;
pub mod client;
pub mod streaming;

use vstd::prelude::*;
use vstd::string::StringExecFns;
use crate::text::{join_strings, joined, string_views};

verus! {

/// The diagnostic text of an error: the display texts of the error and of
/// its sources, outermost first, joined by " <- ", then its debug view.
pub open spec fn error_chain_text(chain: Seq<Seq<char>>, debug: Seq<char>) -> Seq<char> {
    "chain=["@ + joined(chain, " <- "@) + "]; debug="@ + debug
}

/// Formats an error for diagnosis from the display texts of its source
/// chain, outermost first, and its debug view.
pub fn format_error_with_chain(chain: &Vec<String>, debug: &str) -> (r: String)
    ensures
        r@ == error_chain_text(string_views(chain@), debug@),
{
    let joined_chain = join_strings(chain, " <- ");
    String::from_str("chain=[").concat(joined_chain.as_str()).concat("]; debug=").concat(debug)
}

} // verus!

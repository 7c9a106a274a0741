//! AI providers: what every provider offers, and the Ollama provider's logic.

pub mod ollama;

use vstd::prelude::*;
use crate::text::views;

verus! {

/// The capabilities a provider reports unless it says otherwise.
pub open spec fn default_capability_names() -> Seq<Seq<char>> {
    seq!["query"@, "stream"@, "models"@]
}

/// The capabilities a provider reports unless it says otherwise: query, stream, models.
pub fn default_capabilities() -> (caps: Vec<String>)
    ensures
        views(caps@) == default_capability_names(),
{
    let mut caps: Vec<String> = Vec::new();
    caps.push("query".to_string());
    caps.push("stream".to_string());
    caps.push("models".to_string());
    assert(views(caps@) =~= default_capability_names());
    caps
}

} // verus!

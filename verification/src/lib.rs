//! An auto-batching front for a vector-embedding inference service.
//!
//! Client requests are held in a first-in, first-out queue and coalesced into
//! batches that respect both a request-count limit and an input-count limit.
//! The library's own functions carry contracts that Verus proves. What it
//! takes from std, tokio and reqwest is described by contracts that are
//! believed, not proved; each stands beside the item it describes, in the
//! modules `clock`, `channel`, `text` and `inference_client`.

pub mod batch_processor;
pub mod channel;
pub mod clock;
pub mod config;
pub mod delivery;
pub mod guarantees;
pub mod inference_client;
pub mod request_handler;
pub mod routes;
pub mod text;
pub mod types;

use crate::types::ErrorResponse;
use vstd::prelude::*;

verus! {

/// The body for a status that no route has answered: the reason phrase of
/// the status where it has one.
pub fn json_error_catcher(reason: Option<&str>) -> (body: ErrorResponse)
    ensures
        body.error@ == match reason {
            Some(phrase) => phrase@,
            None => "Unknown Error"@,
        },
{
    match reason {
        Some(phrase) => ErrorResponse { error: phrase.to_owned() },
        None => ErrorResponse { error: "Unknown Error".to_owned() },
    }
}

} // verus!

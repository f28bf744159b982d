//! What the two routes decide before anything is queued.

use crate::types::{Custom, EmbedRequest, ErrorResponse, Status, BAD_REQUEST, PAYLOAD_TOO_LARGE};
use vstd::prelude::*;
use vstd::string::to_string_from_display_ensures;

verus! {

/// `text` tells a client that it sent more inputs than `limit`.
pub open spec fn is_too_many_inputs_message(text: Seq<char>, limit: usize) -> bool {
    exists|shown: String| #[trigger]
        to_string_from_display_ensures::<usize>(&limit, shown) && text
            == "`inputs` can't be greater than "@ + shown@
}

/// What the edge makes of a request with `count` inputs under the given
/// limit: it passes a request with at least one input and no more than the
/// limit, and refuses any other with the status and the message that say why.
pub open spec fn is_edge_verdict(
    verdict: Result<(), Custom<ErrorResponse>>,
    count: nat,
    limit: usize,
) -> bool {
    match verdict {
        Ok(_) => 1 <= count <= limit,
        Err(failure) => if count == 0 {
            failure.0.code == BAD_REQUEST && failure.1.error@ == "`inputs` can't be empty"@
        } else {
            &&& count > limit
            &&& failure.0.code == PAYLOAD_TOO_LARGE
            &&& is_too_many_inputs_message(failure.1.error@, limit)
        },
    }
}

/// Checks a request at the edge, before it may enter the queue.
pub fn validate_embed_request(request: &EmbedRequest, max_inference_inputs: usize) -> (verdict:
    Result<(), Custom<ErrorResponse>>)
    ensures
        is_edge_verdict(verdict, request.inputs@.len(), max_inference_inputs),
{
    if request.inputs.len() == 0 {
        return Err(
            Custom(
                Status { code: BAD_REQUEST },
                ErrorResponse { error: "`inputs` can't be empty".to_owned() },
            ),
        );
    }
    if request.inputs.len() > max_inference_inputs {
        let shown = max_inference_inputs.to_string();
        let mut error = "`inputs` can't be greater than ".to_owned();
        error.push_str(shown.as_str());
        return Err(Custom(Status { code: PAYLOAD_TOO_LARGE }, ErrorResponse { error }));
    }
    Ok(())
}

/// The answer of the health check.
pub fn health() -> (body: &'static str)
    ensures
        body@ == "OK"@,
{
    "OK"
}

} // verus!

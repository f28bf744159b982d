//! The values that travel between the gateway, the dispatcher and the client.

use crate::config::AppConfig;
use std::time::Instant;
use tokio::sync::oneshot::{Receiver, Sender};
use vstd::prelude::*;

verus! {

/// An HTTP status, held by its numeric code.
#[derive(Debug, Clone, Copy, PartialEq, Eq, Structural)]
pub struct Status {
    pub code: u16,
}

pub const BAD_REQUEST: u16 = 400;

pub const REQUEST_TIMEOUT: u16 = 408;

pub const PAYLOAD_TOO_LARGE: u16 = 413;

pub const INTERNAL_SERVER_ERROR: u16 = 500;

pub const SERVICE_UNAVAILABLE: u16 = 503;

/// A response body paired with the status it is sent under.
#[derive(Debug)]
pub struct Custom<R>(pub Status, pub R);

/// The JSON body of every error answer.
#[derive(Debug)]
pub struct ErrorResponse {
    pub error: String,
}

impl Clone for ErrorResponse {
    fn clone(&self) -> (copy: Self)
        ensures
            copy == *self,
    {
        ErrorResponse { error: self.error.clone() }
    }
}

impl Clone for Custom<ErrorResponse> {
    fn clone(&self) -> (copy: Self)
        ensures
            copy == *self,
    {
        Custom(self.0, self.1.clone())
    }
}

/// What a client posts: one or several texts to embed.
#[derive(Debug)]
pub struct EmbedRequest {
    pub inputs: Vec<String>,
}

/// Which of the two triggers caused a batch to be emitted.
#[derive(Debug, Clone, Copy, PartialEq, Eq, Structural)]
pub enum BatchType {
    MaxBatchSize,
    MaxWaitTimeMs,
}

/// Diagnostics of one batch, attached to each response of the batch where the
/// configuration asks for them. Times are whole milliseconds.
#[derive(Debug, Clone, Copy, PartialEq, Eq)]
pub struct BatchInfo {
    pub batch_id: u64,
    pub batch_type: BatchType,
    pub batch_size: Option<usize>,
    /// The configured wait time; present only on batches that the age
    /// trigger emitted.
    pub batch_wait_time_ms: Option<u64>,
    pub inference_time_ms: Option<u128>,
    pub processing_time_ms: Option<u128>,
}

/// The source of batch identifiers: it starts at 1 and advances by one for
/// each emitted batch, so each number is handed out once, in increasing
/// order, until the 64-bit range is used up.
#[derive(Debug)]
pub struct BatchCounter {
    pub next_id: u64,
}

/// The identifier that follows `id`; the last one of the range is followed by 0.
pub open spec fn following_id(id: u64) -> u64 {
    if id == u64::MAX {
        0
    } else {
        (id + 1) as u64
    }
}

impl BatchCounter {
    pub fn new() -> (counter: Self)
        ensures
            counter.next_id == 1,
    {
        BatchCounter { next_id: 1 }
    }

    /// Hands out the next identifier.
    pub fn take(&mut self) -> (id: u64)
        ensures
            id == old(self).next_id,
            final(self).next_id == following_id(old(self).next_id),
    {
        let id: u64 = self.next_id;
        self.next_id = id.wrapping_add(1);
        id
    }
}

/// The wait time that a batch of the given type reports.
pub open spec fn reported_wait_time(batch_type: BatchType, max_wait_time_ms: u64) -> Option<u64> {
    match batch_type {
        BatchType::MaxBatchSize => None,
        BatchType::MaxWaitTimeMs => Some(max_wait_time_ms),
    }
}

/// The diagnostics of a batch at the moment it is emitted: both times are
/// still unknown.
pub open spec fn fresh_batch_info(
    batch_id: u64,
    batch_type: BatchType,
    batch_size: usize,
    max_wait_time_ms: u64,
) -> BatchInfo {
    BatchInfo {
        batch_id,
        batch_type,
        batch_size: Some(batch_size),
        batch_wait_time_ms: reported_wait_time(batch_type, max_wait_time_ms),
        inference_time_ms: None,
        processing_time_ms: None,
    }
}

impl BatchInfo {
    /// Stamps a batch that is being emitted. The batch takes the next
    /// identifier in every case; the diagnostics that carry it exist only
    /// where the configuration asks for them.
    pub fn new(
        config: &AppConfig,
        batch_type: BatchType,
        batch_size: usize,
        counter: &mut BatchCounter,
    ) -> (info: Option<BatchInfo>)
        ensures
            final(counter).next_id == following_id(old(counter).next_id),
            info == if config.include_batch_info {
                Some(
                    fresh_batch_info(
                        old(counter).next_id,
                        batch_type,
                        batch_size,
                        config.max_wait_time_ms,
                    ),
                )
            } else {
                None
            },
    {
        let batch_wait_time_ms = match batch_type {
            BatchType::MaxWaitTimeMs => Some(config.max_wait_time_ms),
            BatchType::MaxBatchSize => None,
        };
        let batch_id = counter.take();
        if config.include_batch_info {
            return Some(
                BatchInfo {
                    batch_id,
                    batch_type,
                    batch_size: Some(batch_size),
                    batch_wait_time_ms,
                    inference_time_ms: None,
                    processing_time_ms: None,
                },
            );
        }
        None
    }
}

/// What a client gets back: one embedding per input, in the order of the
/// inputs. The library never looks inside an embedding, so its type is left
/// to the caller.
#[derive(Debug)]
pub struct EmbedResponse<E> {
    pub embeddings: Vec<E>,
    pub batch_info: Option<BatchInfo>,
}

/// What each waiter is answered with.
pub type Reply<E> = Result<EmbedResponse<E>, Custom<ErrorResponse>>;

pub type ResponseSender<E> = Sender<Reply<E>>;

pub type ResponseReceiver<E> = Receiver<Reply<E>>;

/// One client request waiting in the dispatcher's queue.
#[derive(Debug)]
#[verifier::reject_recursive_types(E)]
pub struct PendingRequest<E> {
    pub inputs: Vec<String>,
    pub response_sender: ResponseSender<E>,
    pub received_at: Instant,
}

impl<E> PendingRequest<E> {
    /// A request received now.
    pub fn new(inputs: Vec<String>, response_sender: ResponseSender<E>) -> (request: Self)
        ensures
            request.inputs == inputs,
            request.response_sender == response_sender,
    {
        PendingRequest { inputs, response_sender, received_at: Instant::now() }
    }
}

/// The inputs of the requests of a batch, one request after the other.
pub open spec fn flat_inputs<E>(batch: Seq<PendingRequest<E>>) -> Seq<String>
    decreases batch.len(),
{
    if batch.len() == 0 {
        Seq::empty()
    } else {
        flat_inputs(batch.drop_last()) + batch.last().inputs@
    }
}

/// The body of one call to the inference service.
#[derive(Debug)]
pub struct BatchRequest {
    pub inputs: Vec<String>,
}

impl BatchRequest {
    /// Flattens a batch into one call: the inputs of every request, in batch
    /// order, equal inputs kept apart.
    pub fn prepare_request<E>(batch: &[PendingRequest<E>]) -> (request: BatchRequest)
        ensures
            request.inputs@ == flat_inputs(batch@),
    {
        let mut all_inputs: Vec<String> = Vec::new();
        let mut i: usize = 0;
        while i < batch.len()
            invariant
                i <= batch@.len(),
                all_inputs@ == flat_inputs(batch@.take(i as int)),
            decreases batch@.len() - i,
        {
            let request = &batch[i];
            let mut j: usize = 0;
            while j < request.inputs.len()
                invariant
                    i < batch@.len(),
                    request == &batch@[i as int],
                    j <= request.inputs@.len(),
                    all_inputs@ == flat_inputs(batch@.take(i as int)) + request.inputs@.take(
                        j as int,
                    ),
                decreases request.inputs@.len() - j,
            {
                all_inputs.push(request.inputs[j].clone());
                assert(request.inputs@.take(j + 1) == request.inputs@.take(j as int).push(
                    request.inputs@[j as int],
                ));
                j += 1;
            }
            assert(request.inputs@.take(j as int) == request.inputs@);
            assert(batch@.take(i + 1).drop_last() == batch@.take(i as int));
            i += 1;
        }
        assert(batch@.take(i as int) == batch@);
        BatchRequest { inputs: all_inputs }
    }
}

} // verus!

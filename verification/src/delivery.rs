//! Routing the outcome of one upstream call back to the waiters of its batch.

use crate::batch_processor::BatchProcessor;
use crate::clock::{duration_nanos, nanos_between, NANOS_PER_MILLI};
use crate::inference_client::InferenceError;
use crate::types::{
    flat_inputs, BatchInfo, Custom, EmbedResponse, ErrorResponse, PendingRequest, Reply,
    ResponseSender,
};
use std::time::{Duration, Instant};
use vstd::prelude::*;

verus! {

/// One answer on its way: the reply and the channel of the waiter it is for.
#[derive(Debug)]
#[verifier::reject_recursive_types(E)]
pub struct Delivery<E> {
    pub response_sender: ResponseSender<E>,
    pub reply: Reply<E>,
}

/// The reply channels of the requests of a batch, in batch order.
pub open spec fn request_channels<E>(batch: Seq<PendingRequest<E>>) -> Seq<ResponseSender<E>> {
    Seq::new(batch.len(), |i: int| batch[i].response_sender)
}

/// The reply channels that a list of deliveries writes to, in order.
pub open spec fn delivery_channels<E>(deliveries: Seq<Delivery<E>>) -> Seq<ResponseSender<E>> {
    Seq::new(deliveries.len(), |i: int| deliveries[i].response_sender)
}

/// Where the inputs of the request at position `i` begin in the flat call
/// made for the batch.
pub open spec fn offset_in_call<E>(batch: Seq<PendingRequest<E>>, i: int) -> nat {
    flat_inputs(batch.take(i)).len()
}

/// The `count` embeddings that begin at `start`; none at all where the
/// service returned too few for that range to exist.
pub open spec fn embeddings_for<E>(all: Seq<E>, start: nat, count: nat) -> Seq<E> {
    if start + count <= all.len() {
        all.subrange(start as int, (start + count) as int)
    } else {
        Seq::empty()
    }
}

/// The whole milliseconds in a duration.
pub open spec fn whole_millis(d: Duration) -> nat {
    duration_nanos(d) / (NANOS_PER_MILLI as nat)
}

/// The whole milliseconds that pass from one clock reading to another.
pub open spec fn millis_between(earlier: Instant, later: Instant) -> nat {
    nanos_between(earlier, later) / (NANOS_PER_MILLI as nat)
}

/// `attached` is what a response of a completed batch reports, given the
/// diagnostics `emitted` with the batch: nothing where there were none, else
/// the same diagnostics with the batch size, the time of the upstream call,
/// and as processing time the whole milliseconds from `start_time` to some
/// reading of the clock.
pub open spec fn is_completed_info(
    attached: Option<BatchInfo>,
    emitted: Option<BatchInfo>,
    batch_size: nat,
    start_time: Instant,
    inference_time: Duration,
) -> bool {
    match emitted {
        None => attached is None,
        Some(info) => {
            &&& attached matches Some(shown) && shown == (BatchInfo {
                batch_size: Some(batch_size as usize),
                inference_time_ms: Some(whole_millis(inference_time) as u128),
                processing_time_ms: shown.processing_time_ms,
                ..info
            })
            &&& attached matches Some(shown) && shown.processing_time_ms matches Some(millis)
                && exists|now: Instant| millis == #[trigger] millis_between(start_time, now)
        },
    }
}

/// `reply` is what the request at position `i` of the batch is owed once the
/// upstream call has succeeded: its own slice of the embeddings, with the
/// diagnostics of the completed batch.
pub open spec fn is_success_reply<E>(
    reply: Reply<E>,
    batch: Seq<PendingRequest<E>>,
    i: int,
    embeddings: Seq<E>,
    batch_info: Option<BatchInfo>,
    start_time: Instant,
    inference_time: Duration,
) -> bool {
    reply matches Ok(response) && response.embeddings@ == embeddings_for(
        embeddings,
        offset_in_call(batch, i),
        batch[i].inputs@.len(),
    ) && is_completed_info(response.batch_info, batch_info, batch.len(), start_time, inference_time)
}

/// `reply` reports a failure with the given status and description.
pub open spec fn is_error_reply<E>(reply: Reply<E>, status: u16, description: Seq<char>) -> bool {
    reply matches Err(failure) && failure.0.code == status && failure.1.error@ == description
}

/// `delivery` answers the request at position `i` of the batch with its own
/// slice of the embeddings, on that request's own channel.
pub open spec fn is_success_delivery<E>(
    delivery: Delivery<E>,
    batch: Seq<PendingRequest<E>>,
    i: int,
    embeddings: Seq<E>,
    batch_info: Option<BatchInfo>,
    start_time: Instant,
    inference_time: Duration,
) -> bool {
    &&& delivery.response_sender == batch[i].response_sender
    &&& is_success_reply(delivery.reply, batch, i, embeddings, batch_info, start_time, inference_time)
}

/// `delivery` reports the failure with the given status and description to
/// the request at position `i` of the batch, on that request's own channel.
pub open spec fn is_error_delivery<E>(
    delivery: Delivery<E>,
    batch: Seq<PendingRequest<E>>,
    i: int,
    status: u16,
    description: Seq<char>,
) -> bool {
    &&& delivery.response_sender == batch[i].response_sender
    &&& is_error_reply(delivery.reply, status, description)
}

/// What came of writing the replies of a batch, request by request: `returned`
/// has one entry for each request, in batch order, and holds a reply only
/// where that request's waiter was gone. A reply that came back is the one
/// that the request was owed for its slice of the embeddings.
pub open spec fn are_unclaimed_success_replies<E>(
    returned: Seq<Option<Reply<E>>>,
    batch: Seq<PendingRequest<E>>,
    embeddings: Seq<E>,
    batch_info: Option<BatchInfo>,
    start_time: Instant,
    inference_time: Duration,
) -> bool {
    &&& returned.len() == batch.len()
    &&& forall|i: int|
        0 <= i < batch.len() ==> ((#[trigger] returned[i]) matches Some(reply)
            ==> is_success_reply(reply, batch, i, embeddings, batch_info, start_time, inference_time))
}

/// What came of reporting a failure to the requests of a batch: `returned`
/// has one entry for each request, in batch order, and holds a reply only
/// where that request's waiter was gone. A reply that came back is the
/// report of the failure.
pub open spec fn are_unclaimed_error_replies<E>(
    returned: Seq<Option<Reply<E>>>,
    batch: Seq<PendingRequest<E>>,
    status: u16,
    description: Seq<char>,
) -> bool {
    &&& returned.len() == batch.len()
    &&& forall|i: int|
        0 <= i < batch.len() ==> ((#[trigger] returned[i]) matches Some(reply) ==> is_error_reply(
            reply,
            status,
            description,
        ))
}

impl BatchProcessor {
    /// Splits the flat answer of the inference service among the requests of
    /// the batch: each request gets as many embeddings as it sent inputs,
    /// taken in batch order. Where the service returned too few, the
    /// requests whose range does not exist get an empty list, and the ranges
    /// of the others stay where they are. Where the batch was emitted with
    /// diagnostics, each response carries them, completed by the batch size,
    /// the time of the upstream call and the time from `start_time` to the
    /// moment at which the response was made.
    pub fn success_deliveries<E>(
        batch: Vec<PendingRequest<E>>,
        embeddings: Vec<E>,
        batch_info: Option<BatchInfo>,
        start_time: Instant,
        inference_time: Duration,
    ) -> (deliveries: Vec<Delivery<E>>)
        ensures
            deliveries@.len() == batch@.len(),
            delivery_channels(deliveries@) == request_channels(batch@),
            forall|i: int|
                0 <= i < batch@.len() ==> is_success_delivery(
                    #[trigger] deliveries@[i],
                    batch@,
                    i,
                    embeddings@,
                    batch_info,
                    start_time,
                    inference_time,
                ),
    {
        let ghost requests = batch@;
        let ghost all = embeddings@;
        let batch_size = batch.len();
        let inference_time_ms = inference_time.as_millis();
        let mut remaining = embeddings;
        let mut aligned = true;
        let mut deliveries: Vec<Delivery<E>> = Vec::new();
        proof {
            assert(requests.take(0).len() == 0);
            assert(all.skip(0) == all);
        }
        for request in it: batch
            invariant
                it.seq() == requests,
                batch_size == requests.len(),
                inference_time_ms == whole_millis(inference_time),
                deliveries@.len() == it.index(),
                aligned ==> offset_in_call(requests, it.index() as int) <= all.len()
                    && remaining@ == all.skip(offset_in_call(requests, it.index() as int) as int),
                !aligned ==> offset_in_call(requests, it.index() as int) > all.len(),
                forall|i: int|
                    0 <= i < it.index() ==> is_success_delivery(
                        #[trigger] deliveries@[i],
                        requests,
                        i,
                        all,
                        batch_info,
                        start_time,
                        inference_time,
                    ),
        {
            let ghost position = it.index() as int;
            let ghost start = offset_in_call(requests, position);
            let ghost earlier = deliveries@;
            let count = request.inputs.len();
            proof {
                assert(requests.take(position + 1).drop_last() == requests.take(position));
                assert(requests.take(position + 1).last() == requests[position]);
                assert(offset_in_call(requests, position + 1) == start + count);
            }
            let own: Vec<E>;
            if aligned && count <= remaining.len() {
                let tail = remaining.split_off(count);
                own = remaining;
                remaining = tail;
                proof {
                    assert(own@ == all.subrange(start as int, start + count));
                    assert(remaining@ == all.skip(start + count));
                }
            } else {
                aligned = false;
                own = Vec::new();
            }
            let attached = match batch_info {
                Some(info) => {
                    let now = Instant::now();
                    let processing_time_ms = now.duration_since(start_time).as_millis();
                    assert(processing_time_ms == millis_between(start_time, now));
                    Some(
                        BatchInfo {
                            batch_id: info.batch_id,
                            batch_type: info.batch_type,
                            batch_size: Some(batch_size),
                            batch_wait_time_ms: info.batch_wait_time_ms,
                            inference_time_ms: Some(inference_time_ms),
                            processing_time_ms: Some(processing_time_ms),
                        },
                    )
                },
                None => None,
            };
            let response = EmbedResponse { embeddings: own, batch_info: attached };
            let delivery = Delivery {
                response_sender: request.response_sender,
                reply: Ok(response),
            };
            deliveries.push(delivery);
            proof {
                assert(is_success_delivery(
                    delivery,
                    requests,
                    position,
                    all,
                    batch_info,
                    start_time,
                    inference_time,
                ));
                assert forall|i: int| 0 <= i < position + 1 implies is_success_delivery(
                    #[trigger] deliveries@[i],
                    requests,
                    i,
                    all,
                    batch_info,
                    start_time,
                    inference_time,
                ) by {
                    if i < position {
                        assert(deliveries@[i] == earlier[i]);
                    }
                }
            }
        }
        assert(delivery_channels(deliveries@) =~= request_channels(requests));
        deliveries
    }

    /// Answers every request of the batch with the same report of the
    /// failure.
    pub fn error_deliveries<E>(batch: Vec<PendingRequest<E>>, error: InferenceError) -> (deliveries:
        Vec<Delivery<E>>)
        ensures
            deliveries@.len() == batch@.len(),
            delivery_channels(deliveries@) == request_channels(batch@),
            forall|i: int|
                0 <= i < batch@.len() ==> is_error_delivery(
                    #[trigger] deliveries@[i],
                    batch@,
                    i,
                    error.client_status(),
                    error.description(),
                ),
    {
        let ghost requests = batch@;
        let error_response = Custom(
            error.to_rocket_status(),
            ErrorResponse { error: error.message() },
        );
        let mut deliveries: Vec<Delivery<E>> = Vec::new();
        for request in it: batch
            invariant
                it.seq() == requests,
                deliveries@.len() == it.index(),
                error_response.0.code == error.client_status(),
                error_response.1.error@ == error.description(),
                forall|i: int|
                    0 <= i < it.index() ==> is_error_delivery(
                        #[trigger] deliveries@[i],
                        requests,
                        i,
                        error.client_status(),
                        error.description(),
                    ),
        {
            let ghost position = it.index() as int;
            let ghost earlier = deliveries@;
            let delivery = Delivery {
                response_sender: request.response_sender,
                reply: Err(error_response.clone()),
            };
            deliveries.push(delivery);
            proof {
                assert forall|i: int| 0 <= i < position + 1 implies is_error_delivery(
                    #[trigger] deliveries@[i],
                    requests,
                    i,
                    error.client_status(),
                    error.description(),
                ) by {
                    if i < position {
                        assert(deliveries@[i] == earlier[i]);
                    }
                }
            }
        }
        assert(delivery_channels(deliveries@) =~= request_channels(requests));
        deliveries
    }

    /// Writes each reply to its channel, once, in the order of the
    /// deliveries. A waiter that has given up does not keep the others from
    /// being answered: its reply comes back instead. The result has one entry
    /// for each delivery, in order: the reply where it found no waiter,
    /// nothing where the channel took it.
    pub fn deliver_all<E>(deliveries: Vec<Delivery<E>>) -> (returned: Vec<Option<Reply<E>>>)
        ensures
            returned@.len() == deliveries@.len(),
            forall|i: int|
                0 <= i < deliveries@.len() ==> ((#[trigger] returned@[i]) matches Some(reply)
                    ==> reply == deliveries@[i].reply),
    {
        let ghost all = deliveries@;
        let mut returned: Vec<Option<Reply<E>>> = Vec::new();
        for delivery in it: deliveries
            invariant
                it.seq() == all,
                returned@.len() == it.index(),
                forall|i: int|
                    0 <= i < it.index() ==> ((#[trigger] returned@[i]) matches Some(reply)
                        ==> reply == all[i].reply),
        {
            let ghost earlier = returned@;
            let came_back = match delivery.response_sender.send(delivery.reply) {
                Ok(_) => None,
                Err(reply) => Some(reply),
            };
            returned.push(came_back);
            proof {
                assert forall|i: int| 0 <= i < it.index() + 1 implies ((
                #[trigger] returned@[i]) matches Some(reply) ==> reply == all[i].reply) by {
                    if i < it.index() {
                        assert(returned@[i] == earlier[i]);
                    }
                }
            }
        }
        returned
    }

    /// Answers the requests of a batch whose upstream call succeeded: each
    /// waiter is sent its own slice of the embeddings. The result says, for
    /// each request in batch order, which reply found no waiter.
    pub fn handle_batch_success<E>(
        batch: Vec<PendingRequest<E>>,
        embeddings: Vec<E>,
        batch_info: Option<BatchInfo>,
        start_time: Instant,
        inference_time: Duration,
    ) -> (returned: Vec<Option<Reply<E>>>)
        ensures
            are_unclaimed_success_replies(
                returned@,
                batch@,
                embeddings@,
                batch_info,
                start_time,
                inference_time,
            ),
    {
        let deliveries = Self::success_deliveries(
            batch,
            embeddings,
            batch_info,
            start_time,
            inference_time,
        );
        let ghost owed = deliveries@;
        let returned = Self::deliver_all(deliveries);
        proof {
            assert forall|i: int| 0 <= i < batch@.len() implies ((
            #[trigger] returned@[i]) matches Some(reply) ==> is_success_reply(
                reply,
                batch@,
                i,
                embeddings@,
                batch_info,
                start_time,
                inference_time,
            )) by {
                assert(is_success_delivery(
                    owed[i],
                    batch@,
                    i,
                    embeddings@,
                    batch_info,
                    start_time,
                    inference_time,
                ));
            }
        }
        returned
    }

    /// Answers the requests of a batch whose upstream call failed: each
    /// waiter is sent the same report of the failure. The result says, for
    /// each request in batch order, which reply found no waiter.
    pub fn handle_batch_error<E>(batch: Vec<PendingRequest<E>>, error: InferenceError) -> (returned:
        Vec<Option<Reply<E>>>)
        ensures
            are_unclaimed_error_replies(
                returned@,
                batch@,
                error.client_status(),
                error.description(),
            ),
    {
        let ghost status = error.client_status();
        let ghost description = error.description();
        let deliveries = Self::error_deliveries(batch, error);
        let ghost owed = deliveries@;
        let returned = Self::deliver_all(deliveries);
        proof {
            assert forall|i: int| 0 <= i < batch@.len() implies ((
            #[trigger] returned@[i]) matches Some(reply) ==> is_error_reply(
                reply,
                status,
                description,
            )) by {
                assert(is_error_delivery(owed[i], batch@, i, status, description));
            }
        }
        returned
    }

    /// The replies that the outcome of the upstream call owes to the
    /// requests of its batch: their embeddings where the call succeeded, the
    /// report of the failure where it did not.
    pub fn outcome_deliveries<E>(
        batch: Vec<PendingRequest<E>>,
        outcome: Result<Vec<E>, InferenceError>,
        batch_info: Option<BatchInfo>,
        start_time: Instant,
        inference_time: Duration,
    ) -> (deliveries: Vec<Delivery<E>>)
        ensures
            deliveries@.len() == batch@.len(),
            delivery_channels(deliveries@) == request_channels(batch@),
            forall|i: int|
                0 <= i < batch@.len() ==> match outcome {
                    Ok(embeddings) => is_success_delivery(
                        #[trigger] deliveries@[i],
                        batch@,
                        i,
                        embeddings@,
                        batch_info,
                        start_time,
                        inference_time,
                    ),
                    Err(error) => is_error_delivery(
                        #[trigger] deliveries@[i],
                        batch@,
                        i,
                        error.client_status(),
                        error.description(),
                    ),
                },
    {
        match outcome {
            Ok(embeddings) => Self::success_deliveries(
                batch,
                embeddings,
                batch_info,
                start_time,
                inference_time,
            ),
            Err(error) => Self::error_deliveries(batch, error),
        }
    }

    /// Answers the requests of a batch once its upstream call has returned:
    /// with their embeddings where the call succeeded, with the report of the
    /// failure where it did not. The result says, for each request in batch
    /// order, which reply found no waiter.
    pub fn complete_batch<E>(
        batch: Vec<PendingRequest<E>>,
        outcome: Result<Vec<E>, InferenceError>,
        batch_info: Option<BatchInfo>,
        start_time: Instant,
        inference_time: Duration,
    ) -> (returned: Vec<Option<Reply<E>>>)
        ensures
            match outcome {
                Ok(embeddings) => are_unclaimed_success_replies(
                    returned@,
                    batch@,
                    embeddings@,
                    batch_info,
                    start_time,
                    inference_time,
                ),
                Err(error) => are_unclaimed_error_replies(
                    returned@,
                    batch@,
                    error.client_status(),
                    error.description(),
                ),
            },
    {
        match outcome {
            Ok(embeddings) => Self::handle_batch_success(
                batch,
                embeddings,
                batch_info,
                start_time,
                inference_time,
            ),
            Err(error) => Self::handle_batch_error(batch, error),
        }
    }
}

} // verus!

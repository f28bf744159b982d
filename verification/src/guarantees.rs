//! What holds of every draining cycle, proved from the definition of the
//! cycle.

use crate::batch_processor::{
    drain, input_counts, safe_batch_len, safe_prefix_len, total_inputs, BatchView,
};
use crate::config::AppConfig;
use crate::delivery::{embeddings_for, offset_in_call};
use crate::types::{flat_inputs, following_id, fresh_batch_info, BatchType, PendingRequest};
use vstd::prelude::*;

verus! {

/// A sum of counts is its first count plus the sum of the others.
pub proof fn lemma_total_inputs_from_front(counts: Seq<nat>)
    requires
        counts.len() > 0,
    ensures
        total_inputs(counts) == counts[0] + total_inputs(counts.skip(1)),
    decreases counts.len(),
{
    let front = counts.drop_last();
    let back = counts.skip(1);
    if counts.len() == 1 {
        assert(total_inputs(front) == 0);
        assert(total_inputs(back) == 0);
    } else {
        lemma_total_inputs_from_front(front);
        assert(back.drop_last() == front.skip(1));
        assert(back.last() == counts.last());
        assert(total_inputs(back) == total_inputs(back.drop_last()) + back.last());
        assert(front[0] == counts[0]);
    }
}

/// The safe prefix is a prefix, holds no more requests than a batch may, and
/// no more inputs than a call may.
pub proof fn lemma_safe_prefix_is_safe(
    counts: Seq<nat>,
    max_batch_size: nat,
    max_inference_inputs: nat,
)
    ensures
        safe_prefix_len(counts, max_batch_size, max_inference_inputs) <= counts.len(),
        safe_prefix_len(counts, max_batch_size, max_inference_inputs) <= max_batch_size,
        total_inputs(
            counts.take(safe_prefix_len(counts, max_batch_size, max_inference_inputs) as int),
        ) <= max_inference_inputs,
    decreases counts.len(),
{
    let size = safe_prefix_len(counts, max_batch_size, max_inference_inputs);
    if counts.len() == 0 || max_batch_size == 0 || counts[0] > max_inference_inputs {
        assert(counts.take(0).len() == 0);
    } else {
        let rest = counts.skip(1);
        let fewer = (max_batch_size - 1) as nat;
        let less = (max_inference_inputs - counts[0]) as nat;
        lemma_safe_prefix_is_safe(rest, fewer, less);
        let taken = counts.take(size as int);
        lemma_total_inputs_from_front(taken);
        assert(taken.skip(1) == rest.take(size - 1));
    }
}

/// The safe prefix is the longest safe one: a prefix that is longer by one
/// request holds too many requests or too many inputs.
pub proof fn lemma_safe_prefix_is_longest(
    counts: Seq<nat>,
    max_batch_size: nat,
    max_inference_inputs: nat,
)
    ensures
        ({
            let size = safe_prefix_len(counts, max_batch_size, max_inference_inputs);
            size < counts.len() ==> size == max_batch_size || total_inputs(
                counts.take(size + 1 as int),
            ) > max_inference_inputs
        }),
    decreases counts.len(),
{
    let size = safe_prefix_len(counts, max_batch_size, max_inference_inputs);
    if counts.len() == 0 || max_batch_size == 0 {
    } else if counts[0] > max_inference_inputs {
        let one = counts.take(1);
        assert(one.drop_last().len() == 0);
        assert(one.last() == counts[0]);
    } else {
        let rest = counts.skip(1);
        let fewer = (max_batch_size - 1) as nat;
        let less = (max_inference_inputs - counts[0]) as nat;
        lemma_safe_prefix_is_longest(rest, fewer, less);
        lemma_safe_prefix_is_safe(rest, fewer, less);
        if size < counts.len() {
            let longer = counts.take(size + 1 as int);
            lemma_total_inputs_from_front(longer);
            assert(longer.skip(1) == rest.take(size as int));
        }
    }
}

/// The inputs that a list of requests carries are as many as its counts add
/// up to.
pub proof fn lemma_flat_inputs_len<E>(requests: Seq<PendingRequest<E>>)
    ensures
        flat_inputs(requests).len() == total_inputs(input_counts(requests)),
    decreases requests.len(),
{
    if requests.len() > 0 {
        lemma_flat_inputs_len(requests.drop_last());
        assert(input_counts(requests).drop_last() == input_counts(requests.drop_last()));
    }
}

/// Every batch that a draining cycle emits holds at least one request, no
/// more requests than the configured batch size, and no more inputs than one
/// call to the inference service may carry.
pub proof fn lemma_emitted_batches_are_safe<E>(
    queue: Seq<PendingRequest<E>>,
    config: AppConfig,
    batch_type: BatchType,
    next_id: u64,
)
    ensures
        forall|i: int|
            0 <= i < drain(queue, config, batch_type, next_id).batches.len() ==> {
                let batch = #[trigger] drain(queue, config, batch_type, next_id).batches[i];
                &&& 1 <= batch.requests.len() <= config.max_batch_size
                &&& flat_inputs(batch.requests).len() <= config.max_inference_inputs
            },
    decreases queue.len(),
{
    let size = safe_batch_len(queue, config);
    let all = drain(queue, config, batch_type, next_id).batches;
    if 0 < size <= queue.len() {
        let following = following_id(next_id);
        let rest = queue.skip(size as int);
        lemma_emitted_batches_are_safe(rest, config, batch_type, following);
        let later = drain(rest, config, batch_type, following).batches;
        let head = queue.take(size as int);
        lemma_safe_prefix_is_safe(
            input_counts(queue),
            config.max_batch_size as nat,
            config.max_inference_inputs as nat,
        );
        lemma_flat_inputs_len(head);
        assert(input_counts(head) == input_counts(queue).take(size as int));
        assert forall|i: int| 0 <= i < all.len() implies {
            let batch = #[trigger] all[i];
            &&& 1 <= batch.requests.len() <= config.max_batch_size
            &&& flat_inputs(batch.requests).len() <= config.max_inference_inputs
        } by {
            if i > 0 {
                assert(all[i] == later[i - 1]);
            }
        }
    }
}

/// The requests of a list of batches, batch after batch.
pub open spec fn joined_requests<E>(batches: Seq<BatchView<E>>) -> Seq<PendingRequest<E>>
    decreases batches.len(),
{
    if batches.len() == 0 {
        Seq::empty()
    } else {
        batches[0].requests + joined_requests(batches.skip(1))
    }
}

/// A draining cycle neither loses, repeats nor reorders a request: the
/// batches in the order of their emission, followed by what stays queued,
/// are the queue as it was.
pub proof fn lemma_drain_keeps_submission_order<E>(
    queue: Seq<PendingRequest<E>>,
    config: AppConfig,
    batch_type: BatchType,
    next_id: u64,
)
    ensures
        joined_requests(drain(queue, config, batch_type, next_id).batches) + drain(
            queue,
            config,
            batch_type,
            next_id,
        ).remaining == queue,
    decreases queue.len(),
{
    let size = safe_batch_len(queue, config);
    let all = drain(queue, config, batch_type, next_id).batches;
    if 0 < size <= queue.len() {
        let following = following_id(next_id);
        let rest = queue.skip(size as int);
        lemma_drain_keeps_submission_order(rest, config, batch_type, following);
        let later = drain(rest, config, batch_type, following);
        assert(all.skip(1) == later.batches);
        assert(all[0].requests == queue.take(size as int));
        assert(queue.take(size as int) + (joined_requests(later.batches) + later.remaining)
            == queue);
        assert(joined_requests(all) + later.remaining == queue.take(size as int) + (
        joined_requests(later.batches) + later.remaining));
    } else {
        assert(joined_requests(all) + queue == queue);
    }
}

/// The batch at position `i` is a prefix of the queue as it stood when the
/// batch was cut: the requests that follow those of the earlier batches, as
/// many as the batch holds.
pub open spec fn is_prefix_at_emission<E>(
    queue: Seq<PendingRequest<E>>,
    batches: Seq<BatchView<E>>,
    i: int,
) -> bool {
    let before = joined_requests(batches.take(i)).len();
    let size = batches[i].requests.len();
    &&& before + size <= queue.len()
    &&& batches[i].requests == queue.skip(before as int).take(size as int)
}

/// Each emitted batch is a prefix of the queue as it stood at the moment of
/// its emission.
pub proof fn lemma_batch_is_prefix_at_emission<E>(
    queue: Seq<PendingRequest<E>>,
    config: AppConfig,
    batch_type: BatchType,
    next_id: u64,
)
    ensures
        forall|i: int|
            0 <= i < drain(queue, config, batch_type, next_id).batches.len()
                ==> #[trigger] is_prefix_at_emission(
                queue,
                drain(queue, config, batch_type, next_id).batches,
                i,
            ),
    decreases queue.len(),
{
    let size = safe_batch_len(queue, config);
    let all = drain(queue, config, batch_type, next_id).batches;
    if 0 < size <= queue.len() {
        let following = following_id(next_id);
        let rest = queue.skip(size as int);
        lemma_batch_is_prefix_at_emission(rest, config, batch_type, following);
        let later = drain(rest, config, batch_type, following).batches;
        assert forall|i: int| 0 <= i < all.len() implies #[trigger] is_prefix_at_emission(
            queue,
            all,
            i,
        ) by {
            if i == 0 {
                assert(all.take(0).len() == 0);
                assert(queue.skip(0) == queue);
            } else {
                let earlier = all.take(i);
                assert(is_prefix_at_emission(rest, later, i - 1));
                assert(all[i] == later[i - 1]);
                assert(earlier[0] == all[0]);
                assert(earlier.skip(1) == later.take(i - 1));
                let inner = joined_requests(later.take(i - 1)).len();
                assert(joined_requests(earlier).len() == size + inner);
                assert(rest.skip(inner as int) == queue.skip((size + inner) as int));
            }
        }
    }
}

/// Every batch of a cycle reports the trigger of the cycle, and it reports
/// the configured wait time exactly where that trigger is the age of the
/// oldest request. Diagnostics are present exactly where they are configured.
pub proof fn lemma_wait_time_reported_by_age_batches_only<E>(
    queue: Seq<PendingRequest<E>>,
    config: AppConfig,
    batch_type: BatchType,
    next_id: u64,
)
    ensures
        forall|i: int|
            0 <= i < drain(queue, config, batch_type, next_id).batches.len() ==> {
                let batch = #[trigger] drain(queue, config, batch_type, next_id).batches[i];
                &&& batch.batch_info is Some <==> config.include_batch_info
                &&& batch.batch_info matches Some(info) ==> {
                    &&& info.batch_type == batch_type
                    &&& info.batch_size == Some(batch.requests.len() as usize)
                    &&& batch_type == BatchType::MaxBatchSize ==> info.batch_wait_time_ms is None
                    &&& batch_type == BatchType::MaxWaitTimeMs ==> info.batch_wait_time_ms
                        == Some(config.max_wait_time_ms)
                }
            },
    decreases queue.len(),
{
    let size = safe_batch_len(queue, config);
    let all = drain(queue, config, batch_type, next_id).batches;
    if 0 < size <= queue.len() {
        let following = following_id(next_id);
        let rest = queue.skip(size as int);
        lemma_wait_time_reported_by_age_batches_only(rest, config, batch_type, following);
        let later = drain(rest, config, batch_type, following).batches;
        assert forall|i: int| 0 <= i < all.len() implies {
            let batch = #[trigger] all[i];
            &&& batch.batch_info is Some <==> config.include_batch_info
            &&& batch.batch_info matches Some(info) ==> {
                &&& info.batch_type == batch_type
                &&& info.batch_size == Some(batch.requests.len() as usize)
                &&& batch_type == BatchType::MaxBatchSize ==> info.batch_wait_time_ms is None
                &&& batch_type == BatchType::MaxWaitTimeMs ==> info.batch_wait_time_ms == Some(
                    config.max_wait_time_ms,
                )
            }
        } by {
            if i > 0 {
                assert(all[i] == later[i - 1]);
            }
        }
    }
}

/// While the 64-bit range lasts, each emitted batch takes the next
/// identifier: a cycle advances the counter by the number of batches it
/// emits, whether or not diagnostics are attached. Where they are, the
/// batches report the identifiers from the first unused one upwards, without a
/// gap. So no identifier is given twice, in one cycle or across cycles, and a
/// later batch has the greater identifier.
pub proof fn lemma_batch_ids_count_up<E>(
    queue: Seq<PendingRequest<E>>,
    config: AppConfig,
    batch_type: BatchType,
    next_id: u64,
)
    requires
        next_id + drain(queue, config, batch_type, next_id).batches.len() <= u64::MAX,
    ensures
        drain(queue, config, batch_type, next_id).next_id == next_id + drain(
            queue,
            config,
            batch_type,
            next_id,
        ).batches.len(),
        config.include_batch_info ==> forall|i: int|
            0 <= i < drain(queue, config, batch_type, next_id).batches.len() ==> (
            #[trigger] drain(queue, config, batch_type, next_id).batches[i]).batch_info == Some(
                fresh_batch_info(
                    (next_id + i) as u64,
                    batch_type,
                    drain(queue, config, batch_type, next_id).batches[i].requests.len() as usize,
                    config.max_wait_time_ms,
                ),
            ),
    decreases queue.len(),
{
    let size = safe_batch_len(queue, config);
    let all = drain(queue, config, batch_type, next_id).batches;
    if 0 < size <= queue.len() {
        let following = following_id(next_id);
        let rest = queue.skip(size as int);
        let later = drain(rest, config, batch_type, following).batches;
        assert(all.len() == 1 + later.len());
        lemma_batch_ids_count_up(rest, config, batch_type, following);
        if config.include_batch_info {
            assert forall|i: int| 0 <= i < all.len() implies (#[trigger] all[i]).batch_info
                == Some(
                fresh_batch_info(
                    (next_id + i) as u64,
                    batch_type,
                    all[i].requests.len() as usize,
                    config.max_wait_time_ms,
                ),
            ) by {
                if i > 0 {
                    assert(all[i] == later[i - 1]);
                }
            }
        }
    }
}

/// With a batch size of one, every batch holds exactly one request.
pub proof fn lemma_batch_size_one_gives_single_requests<E>(
    queue: Seq<PendingRequest<E>>,
    config: AppConfig,
    batch_type: BatchType,
    next_id: u64,
)
    requires
        config.max_batch_size == 1,
    ensures
        forall|i: int|
            0 <= i < drain(queue, config, batch_type, next_id).batches.len() ==> (
            #[trigger] drain(queue, config, batch_type, next_id).batches[i]).requests.len() == 1,
{
    lemma_emitted_batches_are_safe(queue, config, batch_type, next_id);
}

/// A cycle stops only where nothing more can be cut: what it leaves queued
/// yields no batch. So a first request that fits in no call stays at the
/// front, and the cycle ends rather than turning on it.
pub proof fn lemma_drain_stops_where_nothing_fits<E>(
    queue: Seq<PendingRequest<E>>,
    config: AppConfig,
    batch_type: BatchType,
    next_id: u64,
)
    ensures
        safe_batch_len(drain(queue, config, batch_type, next_id).remaining, config) == 0,
    decreases queue.len(),
{
    let size = safe_batch_len(queue, config);
    if 0 < size <= queue.len() {
        lemma_drain_stops_where_nothing_fits(
            queue.skip(size as int),
            config,
            batch_type,
            following_id(next_id),
        );
    } else {
        lemma_safe_prefix_is_safe(
            input_counts(queue),
            config.max_batch_size as nat,
            config.max_inference_inputs as nat,
        );
    }
}

/// Where a batch may hold a request and every queued request fits in one
/// call, a cycle empties the queue.
pub proof fn lemma_drain_empties_queue_of_fitting_requests<E>(
    queue: Seq<PendingRequest<E>>,
    config: AppConfig,
    batch_type: BatchType,
    next_id: u64,
)
    requires
        config.max_batch_size >= 1,
        forall|i: int|
            0 <= i < queue.len() ==> (#[trigger] queue[i]).inputs@.len()
                <= config.max_inference_inputs,
    ensures
        drain(queue, config, batch_type, next_id).remaining.len() == 0,
    decreases queue.len(),
{
    let size = safe_batch_len(queue, config);
    lemma_safe_prefix_is_safe(
        input_counts(queue),
        config.max_batch_size as nat,
        config.max_inference_inputs as nat,
    );
    if queue.len() > 0 {
        assert(input_counts(queue)[0] == queue[0].inputs@.len());
        assert(size >= 1);
        let rest = queue.skip(size as int);
        assert forall|i: int| 0 <= i < rest.len() implies (#[trigger] rest[i]).inputs@.len()
            <= config.max_inference_inputs by {
            assert(rest[i] == queue[i + size]);
        }
        lemma_drain_empties_queue_of_fitting_requests(
            rest,
            config,
            batch_type,
            following_id(next_id),
        );
    }
}

/// In the flat call made for a batch, the inputs of each request stand
/// together, in their own order, at the request's offset.
pub proof fn lemma_inputs_stand_at_offset<E>(batch: Seq<PendingRequest<E>>, i: int)
    requires
        0 <= i < batch.len(),
    ensures
        offset_in_call(batch, i) + batch[i].inputs@.len() <= flat_inputs(batch).len(),
        flat_inputs(batch).subrange(
            offset_in_call(batch, i) as int,
            (offset_in_call(batch, i) + batch[i].inputs@.len()) as int,
        ) == batch[i].inputs@,
    decreases batch.len(),
{
    let front = batch.drop_last();
    if i == batch.len() - 1 {
        assert(batch.take(i) == front);
    } else {
        lemma_inputs_stand_at_offset(front, i);
        assert(front.take(i) == batch.take(i));
        assert(front[i] == batch[i]);
        let start = offset_in_call(batch, i) as int;
        let end = start + batch[i].inputs@.len();
        assert(flat_inputs(batch).subrange(start, end) == flat_inputs(front).subrange(
            start,
            end,
        ));
    }
}

/// Where the service returns one embedding per input of the flat call, each
/// request is answered with one embedding per input, in the order of its
/// inputs: the embedding at a position of its answer is the one that the
/// service returned for the input at that position of the request.
pub proof fn lemma_embeddings_follow_inputs<E, V>(
    batch: Seq<PendingRequest<E>>,
    embeddings: Seq<V>,
    i: int,
    j: int,
)
    requires
        embeddings.len() == flat_inputs(batch).len(),
        0 <= i < batch.len(),
        0 <= j < batch[i].inputs@.len(),
    ensures
        embeddings_for(embeddings, offset_in_call(batch, i), batch[i].inputs@.len()).len()
            == batch[i].inputs@.len(),
        offset_in_call(batch, i) + j < flat_inputs(batch).len(),
        flat_inputs(batch)[offset_in_call(batch, i) + j] == batch[i].inputs@[j],
        embeddings_for(embeddings, offset_in_call(batch, i), batch[i].inputs@.len())[j]
            == embeddings[offset_in_call(batch, i) + j],
{
    lemma_inputs_stand_at_offset(batch, i);
    let start = offset_in_call(batch, i) as int;
    let count = batch[i].inputs@.len();
    assert(flat_inputs(batch).subrange(start, start + count)[j] == flat_inputs(batch)[start + j]);
}

} // verus!

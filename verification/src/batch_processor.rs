//! The batching dispatcher: the pending queue, the two triggers, the greedy
//! assembly of safe batches and the routing of results back to each waiter.

use crate::clock::{duration_at_least, duration_nanos, nanos_between, NANOS_PER_MILLI};
use crate::config::AppConfig;
use crate::types::{
    following_id, fresh_batch_info, BatchCounter, BatchInfo, BatchType, PendingRequest,
};
use std::collections::VecDeque;
use std::time::Instant;
use vstd::prelude::*;

verus! {

/// How many inputs each request of a queue carries, front first.
pub open spec fn input_counts<E>(queue: Seq<PendingRequest<E>>) -> Seq<nat> {
    Seq::new(queue.len(), |i: int| queue[i].inputs@.len())
}

/// The sum of the given counts.
pub open spec fn total_inputs(counts: Seq<nat>) -> nat
    decreases counts.len(),
{
    if counts.len() == 0 {
        0
    } else {
        total_inputs(counts.drop_last()) + counts.last()
    }
}

/// The length of the safe batch at the front of a queue: requests are taken
/// from the front for as long as another one is allowed and its inputs still
/// fit.
pub open spec fn safe_prefix_len(
    counts: Seq<nat>,
    max_batch_size: nat,
    max_inference_inputs: nat,
) -> nat
    decreases counts.len(),
{
    if counts.len() == 0 || max_batch_size == 0 || counts[0] > max_inference_inputs {
        0
    } else {
        1 + safe_prefix_len(
            counts.skip(1),
            (max_batch_size - 1) as nat,
            (max_inference_inputs - counts[0]) as nat,
        )
    }
}

/// The length of the safe batch that a queue yields under a configuration.
pub open spec fn safe_batch_len<E>(queue: Seq<PendingRequest<E>>, config: AppConfig) -> nat {
    safe_prefix_len(
        input_counts(queue),
        config.max_batch_size as nat,
        config.max_inference_inputs as nat,
    )
}

/// A batch that the dispatcher has emitted: the requests, in the order in
/// which they were submitted, and the diagnostics they will all report.
#[derive(Debug)]
#[verifier::reject_recursive_types(E)]
pub struct Batch<E> {
    pub requests: Vec<PendingRequest<E>>,
    pub batch_info: Option<BatchInfo>,
}

/// The mathematical content of a [`Batch`].
#[verifier::reject_recursive_types(E)]
pub struct BatchView<E> {
    pub requests: Seq<PendingRequest<E>>,
    pub batch_info: Option<BatchInfo>,
}

impl<E> View for Batch<E> {
    type V = BatchView<E>;

    open spec fn view(&self) -> BatchView<E> {
        BatchView { requests: self.requests@, batch_info: self.batch_info }
    }
}

/// The contents of a list of batches.
pub open spec fn batch_views<E>(batches: Seq<Batch<E>>) -> Seq<BatchView<E>> {
    Seq::new(batches.len(), |i: int| batches[i]@)
}

/// The diagnostics that a batch of `size` requests gets when `next_id` is the
/// identifier it takes.
pub open spec fn batch_stamp(
    config: AppConfig,
    batch_type: BatchType,
    size: nat,
    next_id: u64,
) -> Option<BatchInfo> {
    if config.include_batch_info {
        Some(fresh_batch_info(next_id, batch_type, size as usize, config.max_wait_time_ms))
    } else {
        None
    }
}

/// The outcome of one draining cycle.
#[verifier::reject_recursive_types(E)]
pub struct Drained<E> {
    /// The batches emitted, first emitted first.
    pub batches: Seq<BatchView<E>>,
    /// What stays in the queue.
    pub remaining: Seq<PendingRequest<E>>,
    /// The next unused identifier afterwards.
    pub next_id: u64,
}

/// One draining cycle: safe batches are cut from the front of the queue until
/// the queue is empty or its first request fits in no batch.
pub open spec fn drain<E>(
    queue: Seq<PendingRequest<E>>,
    config: AppConfig,
    batch_type: BatchType,
    next_id: u64,
) -> Drained<E>
    decreases queue.len(),
{
    let size = safe_batch_len(queue, config);
    if 0 < size <= queue.len() {
        let later = drain(
            queue.skip(size as int),
            config,
            batch_type,
            following_id(next_id),
        );
        Drained {
            batches: seq![
                BatchView {
                    requests: queue.take(size as int),
                    batch_info: batch_stamp(config, batch_type, size, next_id),
                },
            ] + later.batches,
            remaining: later.remaining,
            next_id: later.next_id,
        }
    } else {
        Drained { batches: Seq::empty(), remaining: queue, next_id }
    }
}

/// The dispatcher's state after a step is the one that `expected` describes,
/// and `batches` are the batches it emitted.
pub open spec fn matches_drained<E>(
    batches: Seq<Batch<E>>,
    queue: Seq<PendingRequest<E>>,
    counter: BatchCounter,
    expected: Drained<E>,
) -> bool {
    &&& batch_views(batches) == expected.batches
    &&& queue == expected.remaining
    &&& counter.next_id == expected.next_id
}

/// A step in which nothing is emitted.
pub open spec fn untouched<E>(queue: Seq<PendingRequest<E>>, next_id: u64) -> Drained<E> {
    Drained { batches: Seq::empty(), remaining: queue, next_id }
}

/// One step followed by another that starts where the first one ended.
pub open spec fn followed_by<E>(first: Drained<E>, second: Drained<E>) -> Drained<E> {
    Drained {
        batches: first.batches + second.batches,
        remaining: second.remaining,
        next_id: second.next_id,
    }
}

/// The age trigger: the queue is not empty and, at `now`, its oldest request
/// has waited for the configured time or longer.
pub open spec fn age_trigger_due<E>(
    queue: Seq<PendingRequest<E>>,
    config: AppConfig,
    now: Instant,
) -> bool {
    queue.len() > 0 && nanos_between(queue[0].received_at, now) >= config.max_wait_time_ms
        * NANOS_PER_MILLI
}

/// The age check at `now`: a draining cycle where the trigger is due, nothing
/// otherwise.
pub open spec fn age_check<E>(
    queue: Seq<PendingRequest<E>>,
    config: AppConfig,
    next_id: u64,
    now: Instant,
) -> Drained<E> {
    if age_trigger_due(queue, config, now) {
        drain(queue, config, BatchType::MaxWaitTimeMs, next_id)
    } else {
        untouched(queue, next_id)
    }
}

/// The size trigger: the request joins the back of the queue, and a draining
/// cycle follows where the queue has reached the configured batch size.
pub open spec fn arrival<E>(
    queue: Seq<PendingRequest<E>>,
    config: AppConfig,
    next_id: u64,
    request: PendingRequest<E>,
) -> Drained<E> {
    let grown = queue.push(request);
    if grown.len() >= config.max_batch_size {
        drain(grown, config, BatchType::MaxBatchSize, next_id)
    } else {
        untouched(grown, next_id)
    }
}

/// One turn of the dispatcher: what arrived, if anything did, is taken in,
/// and the age check follows in every case.
pub open spec fn turn<E>(
    queue: Seq<PendingRequest<E>>,
    config: AppConfig,
    next_id: u64,
    arrived: Option<PendingRequest<E>>,
    now: Instant,
) -> Drained<E> {
    let first = match arrived {
        Some(request) => arrival(queue, config, next_id, request),
        None => untouched(queue, next_id),
    };
    followed_by(first, age_check(first.remaining, config, first.next_id, now))
}

/// Taking `taken` requests first, with `used` inputs between them, leaves the
/// rest of the walk to the shorter queue and the smaller allowances.
proof fn lemma_safe_prefix_step(
    counts: Seq<nat>,
    max_batch_size: nat,
    max_inference_inputs: nat,
    taken: nat,
)
    requires
        taken < counts.len(),
        taken < max_batch_size,
        total_inputs(counts.take(taken as int)) + counts[taken as int] <= max_inference_inputs,
        taken <= safe_prefix_len(counts, max_batch_size, max_inference_inputs),
        safe_prefix_len(counts, max_batch_size, max_inference_inputs) == taken + safe_prefix_len(
            counts.skip(taken as int),
            (max_batch_size - taken) as nat,
            (max_inference_inputs - total_inputs(counts.take(taken as int))) as nat,
        ),
    ensures
        safe_prefix_len(counts, max_batch_size, max_inference_inputs) == taken + 1
            + safe_prefix_len(
            counts.skip(taken + 1 as int),
            (max_batch_size - taken - 1) as nat,
            (max_inference_inputs - total_inputs(counts.take(taken + 1 as int))) as nat,
        ),
{
    let rest = counts.skip(taken as int);
    assert(rest[0] == counts[taken as int]);
    assert(rest.skip(1) == counts.skip(taken + 1 as int));
    assert(counts.take(taken + 1 as int).drop_last() == counts.take(taken as int));
    assert(counts.take(taken + 1 as int).last() == counts[taken as int]);
}

/// The dispatcher's rules. It holds no state of its own: the queue, the
/// configuration and the identifier counter are handed to each step by the
/// task that owns them.
pub struct BatchProcessor {}

impl BatchProcessor {
    /// Removes the safe batch from the front of the queue and returns it in
    /// queue order. The batch is empty where the queue is, where no request
    /// is allowed in a batch, and where the first request alone carries more
    /// inputs than one call may hold.
    pub fn build_safe_batch<E>(
        pending_requests: &mut VecDeque<PendingRequest<E>>,
        config: &AppConfig,
    ) -> (batch: Vec<PendingRequest<E>>)
        ensures
            batch@ == old(pending_requests)@.take(
                safe_batch_len(old(pending_requests)@, *config) as int,
            ),
            final(pending_requests)@ == old(pending_requests)@.skip(
                safe_batch_len(old(pending_requests)@, *config) as int,
            ),
            safe_batch_len(old(pending_requests)@, *config) <= old(pending_requests)@.len(),
    {
        let ghost queue = pending_requests@;
        let ghost counts = input_counts(queue);
        let ghost goal = safe_batch_len(queue, *config);
        let mut batch_size: usize = 0;
        let mut inputs_count: usize = 0;
        assert(counts.skip(0) == counts);
        assert(counts.take(0).len() == 0);
        while batch_size < pending_requests.len() && batch_size < config.max_batch_size
            && pending_requests[batch_size].inputs.len() <= config.max_inference_inputs
            - inputs_count
            invariant
                pending_requests@ == queue,
                counts == input_counts(queue),
                goal == safe_prefix_len(
                    counts,
                    config.max_batch_size as nat,
                    config.max_inference_inputs as nat,
                ),
                batch_size <= queue.len(),
                batch_size <= config.max_batch_size,
                inputs_count == total_inputs(counts.take(batch_size as int)),
                inputs_count <= config.max_inference_inputs,
                goal == batch_size + safe_prefix_len(
                    counts.skip(batch_size as int),
                    (config.max_batch_size - batch_size) as nat,
                    (config.max_inference_inputs - inputs_count) as nat,
                ),
            decreases queue.len() - batch_size,
        {
            proof {
                lemma_safe_prefix_step(
                    counts,
                    config.max_batch_size as nat,
                    config.max_inference_inputs as nat,
                    batch_size as nat,
                );
                assert(counts.take(batch_size + 1).drop_last() == counts.take(batch_size as int));
            }
            inputs_count += pending_requests[batch_size].inputs.len();
            batch_size += 1;
        }
        assert(goal == batch_size) by {
            let rest = counts.skip(batch_size as int);
            if batch_size < queue.len() {
                assert(rest[0] == counts[batch_size as int]);
            }
        }
        let mut batch: Vec<PendingRequest<E>> = Vec::new();
        let mut moved: usize = 0;
        while moved < batch_size
            invariant
                moved <= batch_size <= queue.len(),
                batch@ == queue.take(moved as int),
                pending_requests@ == queue.skip(moved as int),
            decreases batch_size - moved,
        {
            let request = pending_requests.pop_front().unwrap();
            batch.push(request);
            proof {
                assert(queue.skip(moved as int)[0] == queue[moved as int]);
                assert(queue.take(moved + 1) == queue.take(moved as int).push(queue[moved as int]));
                assert(queue.skip(moved as int).subrange(
                    1,
                    queue.skip(moved as int).len() as int,
                ) == queue.skip(moved + 1));
            }
            moved += 1;
        }
        batch
    }

    /// Drains the queue in one cycle, emitting every batch that can be built
    /// and tagging each with the trigger that caused the cycle. The batches
    /// are returned for the caller to send upstream; none is awaited here.
    pub fn process_pending_requests<E>(
        pending_requests: &mut VecDeque<PendingRequest<E>>,
        config: &AppConfig,
        counter: &mut BatchCounter,
        batch_type: BatchType,
    ) -> (batches: Vec<Batch<E>>)
        ensures
            matches_drained(
                batches@,
                final(pending_requests)@,
                *final(counter),
                drain(old(pending_requests)@, *config, batch_type, old(counter).next_id),
            ),
    {
        let ghost goal = drain(pending_requests@, *config, batch_type, counter.next_id);
        let mut batches: Vec<Batch<E>> = Vec::new();
        assert(batch_views(batches@) == Seq::<BatchView<E>>::empty());
        while pending_requests.len() > 0
            invariant
                goal.batches == batch_views(batches@) + drain(
                    pending_requests@,
                    *config,
                    batch_type,
                    counter.next_id,
                ).batches,
                goal.remaining == drain(
                    pending_requests@,
                    *config,
                    batch_type,
                    counter.next_id,
                ).remaining,
                goal.next_id == drain(
                    pending_requests@,
                    *config,
                    batch_type,
                    counter.next_id,
                ).next_id,
            ensures
                goal.batches == batch_views(batches@),
                goal.remaining == pending_requests@,
                goal.next_id == counter.next_id,
            decreases pending_requests@.len(),
        {
            let ghost queue = pending_requests@;
            let ghost first_id = counter.next_id;
            let ghost done = batch_views(batches@);
            let batch = Self::build_safe_batch(pending_requests, config);
            if batch.len() == 0 {
                break ;
            }
            let batch_size = batch.len();
            let batch_info = BatchInfo::new(config, batch_type, batch_size, counter);
            let emitted = Batch { requests: batch, batch_info };
            batches.push(emitted);
            proof {
                let later = drain(pending_requests@, *config, batch_type, counter.next_id);
                assert(batch_views(batches@) == done.push(emitted@));
                assert(done.push(emitted@) + later.batches == done + (seq![emitted@]
                    + later.batches));
            }
        }
        batches
    }

    /// The age check at a given reading of the clock.
    pub fn handle_max_wait_time_ms_at<E>(
        pending_requests: &mut VecDeque<PendingRequest<E>>,
        config: &AppConfig,
        counter: &mut BatchCounter,
        now: Instant,
    ) -> (batches: Vec<Batch<E>>)
        ensures
            matches_drained(
                batches@,
                final(pending_requests)@,
                *final(counter),
                age_check(old(pending_requests)@, *config, old(counter).next_id, now),
            ),
    {
        if pending_requests.len() > 0 {
            let received_at = pending_requests[0].received_at;
            if duration_at_least(now.duration_since(received_at), config.max_wait_time_duration()) {
                return Self::process_pending_requests(
                    pending_requests,
                    config,
                    counter,
                    BatchType::MaxWaitTimeMs,
                );
            }
        }
        let batches: Vec<Batch<E>> = Vec::new();
        assert(batch_views(batches@) == Seq::<BatchView<E>>::empty());
        batches
    }

    /// The age check now: the oldest request is held against the clock.
    pub fn handle_max_wait_time_ms<E>(
        pending_requests: &mut VecDeque<PendingRequest<E>>,
        config: &AppConfig,
        counter: &mut BatchCounter,
    ) -> (batches: Vec<Batch<E>>)
        ensures
            exists|now: Instant|
                matches_drained(
                    batches@,
                    final(pending_requests)@,
                    *final(counter),
                    #[trigger] age_check(
                        old(pending_requests)@,
                        *config,
                        old(counter).next_id,
                        now,
                    ),
                ),
    {
        Self::handle_max_wait_time_ms_at(pending_requests, config, counter, Instant::now())
    }

    /// Takes a new request into the queue and applies the size trigger.
    pub fn handle_arrival<E>(
        pending_requests: &mut VecDeque<PendingRequest<E>>,
        config: &AppConfig,
        counter: &mut BatchCounter,
        request: PendingRequest<E>,
    ) -> (batches: Vec<Batch<E>>)
        ensures
            matches_drained(
                batches@,
                final(pending_requests)@,
                *final(counter),
                arrival(old(pending_requests)@, *config, old(counter).next_id, request),
            ),
    {
        pending_requests.push_back(request);
        if pending_requests.len() >= config.max_batch_size {
            return Self::process_pending_requests(
                pending_requests,
                config,
                counter,
                BatchType::MaxBatchSize,
            );
        }
        let batches: Vec<Batch<E>> = Vec::new();
        assert(batch_views(batches@) == Seq::<BatchView<E>>::empty());
        batches
    }

    /// One turn of the dispatcher at a given reading of the clock: `arrived`
    /// is the request that woke it, or nothing where the tick did.
    pub fn handle_event_at<E>(
        pending_requests: &mut VecDeque<PendingRequest<E>>,
        config: &AppConfig,
        counter: &mut BatchCounter,
        arrived: Option<PendingRequest<E>>,
        now: Instant,
    ) -> (batches: Vec<Batch<E>>)
        ensures
            matches_drained(
                batches@,
                final(pending_requests)@,
                *final(counter),
                turn(old(pending_requests)@, *config, old(counter).next_id, arrived, now),
            ),
    {
        let mut batches: Vec<Batch<E>> = match arrived {
            Some(request) => Self::handle_arrival(pending_requests, config, counter, request),
            None => Vec::new(),
        };
        let ghost first = batch_views(batches@);
        let mut aged = Self::handle_max_wait_time_ms_at(pending_requests, config, counter, now);
        let ghost second = batch_views(aged@);
        batches.append(&mut aged);
        assert(batch_views(batches@) == first + second);
        batches
    }

    /// One turn of the dispatcher, the clock read at the age check.
    pub fn handle_event<E>(
        pending_requests: &mut VecDeque<PendingRequest<E>>,
        config: &AppConfig,
        counter: &mut BatchCounter,
        arrived: Option<PendingRequest<E>>,
    ) -> (batches: Vec<Batch<E>>)
        ensures
            exists|now: Instant|
                matches_drained(
                    batches@,
                    final(pending_requests)@,
                    *final(counter),
                    #[trigger] turn(
                        old(pending_requests)@,
                        *config,
                        old(counter).next_id,
                        arrived,
                        now,
                    ),
                ),
    {
        Self::handle_event_at(pending_requests, config, counter, arrived, Instant::now())
    }
}

} // verus!

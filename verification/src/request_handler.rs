//! The submission gateway: it hands each client request to the dispatcher
//! and turns what comes of the wait into the client's answer.

use crate::clock::{duration_nanos, duration_sum, NANOS_PER_MILLI, NANOS_PER_SEC};
use crate::config::AppConfig;
use crate::types::{
    Custom, EmbedRequest, ErrorResponse, PendingRequest, Reply, ResponseReceiver, Status,
    INTERNAL_SERVER_ERROR, REQUEST_TIMEOUT,
};
use std::time::Duration;
use tokio::sync::mpsc::{UnboundedReceiver, UnboundedSender};
use vstd::prelude::*;

verus! {

/// The time, in seconds, that a waiter grants the upstream call on top of
/// the configured batching wait.
pub const REPLY_SLACK_SECS: u64 = 30;

/// What came of waiting for a reply.
#[derive(Debug)]
pub enum WaitOutcome<E> {
    /// The overall timeout elapsed first.
    TimedOut,
    /// The reply channel was closed without a value.
    ChannelClosed,
    /// The dispatcher replied.
    Replied(Reply<E>),
}

/// The gateway of one proxy: its configuration and its end of the
/// submission channel.
#[verifier::reject_recursive_types(E)]
pub struct RequestHandler<E> {
    pub config: AppConfig,
    pub request_sender: UnboundedSender<PendingRequest<E>>,
}

/// The answer to a client whose wait came to the given end: a timeout is
/// reported as such, a channel closed without a value as an internal error,
/// and a reply is passed on as it is.
pub open spec fn is_answer_to<E>(answer: Reply<E>, outcome: WaitOutcome<E>) -> bool {
    match outcome {
        WaitOutcome::TimedOut => answer matches Err(failure) && failure.0.code == REQUEST_TIMEOUT
            && failure.1.error@ == "Request timed out"@,
        WaitOutcome::ChannelClosed => answer matches Err(failure) && failure.0.code
            == INTERNAL_SERVER_ERROR && failure.1.error@ == "Response channel closed"@,
        WaitOutcome::Replied(reply) => answer == reply,
    }
}

/// What a client learns of the attempt to queue its request: where the
/// dispatcher took it, the channel to wait on; where the dispatcher is gone,
/// that the request could not be queued.
pub open spec fn is_queue_verdict<E>(
    verdict: Result<ResponseReceiver<E>, Custom<ErrorResponse>>,
    accepted: bool,
    response_receiver: ResponseReceiver<E>,
) -> bool {
    if accepted {
        verdict == Ok::<ResponseReceiver<E>, Custom<ErrorResponse>>(response_receiver)
    } else {
        verdict matches Err(failure) && failure.0.code == INTERNAL_SERVER_ERROR
            && failure.1.error@ == "Failed to queue request"@
    }
}

impl<E> RequestHandler<E> {
    /// A gateway under the given configuration, together with the reading
    /// end of its submission channel, which is for the dispatcher.
    pub fn new(config: AppConfig) -> (made: (Self, UnboundedReceiver<PendingRequest<E>>))
        ensures
            made.0.config == config,
    {
        let (request_sender, request_receiver) = tokio::sync::mpsc::unbounded_channel();
        (RequestHandler { config, request_sender }, request_receiver)
    }

    /// How long a waiter waits for its reply: the batching wait and the
    /// slack for the upstream call.
    pub fn request_timeout(&self) -> (timeout: Duration)
        ensures
            duration_nanos(timeout) == self.config.max_wait_time_ms * NANOS_PER_MILLI
                + REPLY_SLACK_SECS * NANOS_PER_SEC,
    {
        duration_sum(self.config.max_wait_time_duration(), Duration::from_secs(REPLY_SLACK_SECS))
    }

    /// Hands the request to the dispatcher and returns the end of the reply
    /// channel to wait on. Where the dispatcher is gone, the client is told
    /// that the request could not be queued.
    pub fn submit(&self, request: EmbedRequest) -> (queued: Result<
        ResponseReceiver<E>,
        Custom<ErrorResponse>,
    >)
        ensures
            queued matches Err(failure) ==> failure.0.code == INTERNAL_SERVER_ERROR
                && failure.1.error@ == "Failed to queue request"@,
    {
        let (response_sender, response_receiver) = tokio::sync::oneshot::channel();
        let pending_request = PendingRequest::new(request.inputs, response_sender);
        let accepted = self.request_sender.send(pending_request).is_ok();
        Self::queue_verdict(accepted, response_receiver)
    }

    /// The outcome of queuing a request, given whether the dispatcher took
    /// it.
    pub fn queue_verdict(accepted: bool, response_receiver: ResponseReceiver<E>) -> (verdict:
        Result<ResponseReceiver<E>, Custom<ErrorResponse>>)
        ensures
            is_queue_verdict(verdict, accepted, response_receiver),
    {
        if accepted {
            Ok(response_receiver)
        } else {
            Err(
                Custom(
                    Status { code: INTERNAL_SERVER_ERROR },
                    ErrorResponse { error: "Failed to queue request".to_owned() },
                ),
            )
        }
    }

    /// The answer that the end of the wait owes the client.
    pub fn resolve(outcome: WaitOutcome<E>) -> (answer: Reply<E>)
        ensures
            is_answer_to(answer, outcome),
    {
        match outcome {
            WaitOutcome::TimedOut => Err(
                Custom(
                    Status { code: REQUEST_TIMEOUT },
                    ErrorResponse { error: "Request timed out".to_owned() },
                ),
            ),
            WaitOutcome::ChannelClosed => Err(
                Custom(
                    Status { code: INTERNAL_SERVER_ERROR },
                    ErrorResponse { error: "Response channel closed".to_owned() },
                ),
            ),
            WaitOutcome::Replied(reply) => reply,
        }
    }
}

} // verus!

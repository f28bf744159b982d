use auto_batching_proxy::config::AppConfig;
use auto_batching_proxy::json_error_catcher;
use auto_batching_proxy::request_handler::{RequestHandler, WaitOutcome};
use auto_batching_proxy::routes::{health, validate_embed_request};
use auto_batching_proxy::types::{Custom, EmbedRequest, EmbedResponse, ErrorResponse, Status};
use std::time::Duration;

type Embedding = Vec<f32>;

fn request_with(count: usize) -> EmbedRequest {
    EmbedRequest {
        inputs: (1..=count).map(|i| format!("{}: What is ML ?", i)).collect(),
    }
}

#[test]
fn inputs_up_to_the_limit_are_accepted() {
    assert!(validate_embed_request(&request_with(1), 20).is_ok());
    assert!(validate_embed_request(&request_with(19), 20).is_ok());
    assert!(validate_embed_request(&request_with(20), 20).is_ok());
    assert!(validate_embed_request(&request_with(32), 32).is_ok());
}

#[test]
fn one_input_more_than_the_limit_is_too_large() {
    let failure = validate_embed_request(&request_with(21), 20).unwrap_err();
    assert_eq!(failure.0.code, 413);
    assert_eq!(failure.1.error, "`inputs` can't be greater than 20");
    let failure = validate_embed_request(&request_with(33), 32).unwrap_err();
    assert_eq!(failure.0.code, 413);
    assert_eq!(failure.1.error, "`inputs` can't be greater than 32");
}

#[test]
fn many_more_inputs_than_the_limit_are_too_large() {
    let failure = validate_embed_request(&request_with(25), 20).unwrap_err();
    assert_eq!(failure.0, Status { code: 413 });
    assert_eq!(failure.1.error, "`inputs` can't be greater than 20");
}

#[test]
fn no_inputs_are_a_bad_request() {
    let failure = validate_embed_request(&request_with(0), 20).unwrap_err();
    assert_eq!(failure.0.code, 400);
    assert_eq!(failure.1.error, "`inputs` can't be empty");
    let failure = validate_embed_request(&request_with(0), 0).unwrap_err();
    assert_eq!(failure.0.code, 400);
}

#[test]
fn a_limit_of_zero_refuses_every_request() {
    let failure = validate_embed_request(&request_with(1), 0).unwrap_err();
    assert_eq!(failure.0.code, 413);
    assert_eq!(failure.1.error, "`inputs` can't be greater than 0");
}

#[test]
fn health_says_ok() {
    assert_eq!(health(), "OK");
}

#[test]
fn unhandled_status_is_shown_by_its_reason() {
    assert_eq!(json_error_catcher(Some("Not Found")).error, "Not Found");
    assert_eq!(
        json_error_catcher(Some("Unprocessable Entity")).error,
        "Unprocessable Entity"
    );
    assert_eq!(json_error_catcher(None).error, "Unknown Error");
}

#[test]
fn request_timeout_is_the_wait_time_and_thirty_seconds() {
    let (handler, _receiver) = RequestHandler::<Embedding>::new(AppConfig::default());
    assert_eq!(handler.request_timeout(), Duration::from_millis(30_500));
    let config = AppConfig {
        max_wait_time_ms: u64::MAX,
        ..AppConfig::default()
    };
    let (handler, _receiver) = RequestHandler::<Embedding>::new(config);
    assert_eq!(
        handler.request_timeout(),
        Duration::from_millis(u64::MAX) + Duration::from_secs(30)
    );
}

#[test]
fn handler_keeps_its_configuration() {
    let config = AppConfig {
        port: 4000,
        max_inference_inputs: 20,
        ..AppConfig::default()
    };
    let (handler, _receiver) = RequestHandler::<Embedding>::new(config);
    assert_eq!(handler.config.port, 4000);
    assert_eq!(handler.config.max_inference_inputs, 20);
}

#[test]
fn a_submitted_request_reaches_the_dispatcher_with_its_inputs() {
    let (handler, mut receiver) = RequestHandler::<Embedding>::new(AppConfig::default());
    let mut reply = handler.submit(request_with(2)).unwrap();
    let pending = receiver.try_recv().unwrap();
    assert_eq!(pending.inputs, vec!["1: What is ML ?", "2: What is ML ?"]);
    assert!(receiver.try_recv().is_err());

    let answer = EmbedResponse {
        embeddings: vec![vec![0.25f32], vec![0.5f32]],
        batch_info: None,
    };
    assert!(pending.response_sender.send(Ok(answer)).is_ok());
    let received = reply.try_recv().unwrap().unwrap();
    assert_eq!(received.embeddings, vec![vec![0.25f32], vec![0.5f32]]);
}

#[test]
fn requests_are_queued_in_the_order_of_submission() {
    let (handler, mut receiver) = RequestHandler::<Embedding>::new(AppConfig::default());
    let _first = handler.submit(request_with(1)).unwrap();
    let _second = handler.submit(request_with(3)).unwrap();
    assert_eq!(receiver.try_recv().unwrap().inputs.len(), 1);
    assert_eq!(receiver.try_recv().unwrap().inputs.len(), 3);
}

#[test]
fn submitting_without_a_dispatcher_fails() {
    let (handler, receiver) = RequestHandler::<Embedding>::new(AppConfig::default());
    drop(receiver);
    let failure = handler.submit(request_with(1)).unwrap_err();
    assert_eq!(failure.0.code, 500);
    assert_eq!(failure.1.error, "Failed to queue request");
}

#[test]
fn a_timeout_is_reported_as_such() {
    let failure = RequestHandler::<Embedding>::resolve(WaitOutcome::TimedOut).unwrap_err();
    assert_eq!(failure.0.code, 408);
    assert_eq!(failure.1.error, "Request timed out");
}

#[test]
fn a_closed_reply_channel_is_an_internal_error() {
    let failure = RequestHandler::<Embedding>::resolve(WaitOutcome::ChannelClosed).unwrap_err();
    assert_eq!(failure.0.code, 500);
    assert_eq!(failure.1.error, "Response channel closed");
}

#[test]
fn a_reply_is_passed_on_as_it_is() {
    let answer = EmbedResponse {
        embeddings: vec![vec![1.0f32, 2.0f32]],
        batch_info: None,
    };
    let passed = RequestHandler::<Embedding>::resolve(WaitOutcome::Replied(Ok(answer))).unwrap();
    assert_eq!(passed.embeddings, vec![vec![1.0f32, 2.0f32]]);

    let failure = Custom(
        Status { code: 503 },
        ErrorResponse {
            error: "Network error: refused".to_string(),
        },
    );
    let passed =
        RequestHandler::<Embedding>::resolve(WaitOutcome::Replied(Err(failure))).unwrap_err();
    assert_eq!(passed.0.code, 503);
    assert_eq!(passed.1.error, "Network error: refused");
}

#[test]
fn error_responses_are_copied_whole() {
    let failure = Custom(
        Status { code: 400 },
        ErrorResponse {
            error: "HTTP 404 Not Found: ".to_string(),
        },
    );
    let copy = failure.clone();
    assert_eq!(copy.0, failure.0);
    assert_eq!(copy.1.error, failure.1.error);
}

use auto_batching_proxy::batch_processor::BatchProcessor;
use auto_batching_proxy::delivery::Delivery;
use auto_batching_proxy::inference_client::InferenceError;
use auto_batching_proxy::types::{
    BatchInfo, BatchType, PendingRequest, Reply, ResponseReceiver, ResponseSender,
};
use reqwest::StatusCode;
use std::time::{Duration, Instant};
use tokio::sync::oneshot;

type Embedding = Vec<f32>;

fn request(inputs: &[&str]) -> (PendingRequest<Embedding>, ResponseReceiver<Embedding>) {
    let (response_sender, response_receiver): (ResponseSender<Embedding>, _) = oneshot::channel();
    (
        PendingRequest::new(
            inputs.iter().map(|text| text.to_string()).collect(),
            response_sender,
        ),
        response_receiver,
    )
}

fn batch_of(
    shapes: &[&[&str]],
) -> (
    Vec<PendingRequest<Embedding>>,
    Vec<ResponseReceiver<Embedding>>,
) {
    let mut batch = Vec::new();
    let mut receivers = Vec::new();
    for inputs in shapes {
        let (pending, receiver) = request(inputs);
        batch.push(pending);
        receivers.push(receiver);
    }
    (batch, receivers)
}

fn embedding(tag: f32) -> Embedding {
    vec![tag, tag + 0.5]
}

fn emitted_info() -> BatchInfo {
    BatchInfo {
        batch_id: 7,
        batch_type: BatchType::MaxWaitTimeMs,
        batch_size: Some(3),
        batch_wait_time_ms: Some(500),
        inference_time_ms: None,
        processing_time_ms: None,
    }
}

fn unclaimed_positions(returned: &[Option<Reply<Embedding>>]) -> Vec<usize> {
    returned
        .iter()
        .enumerate()
        .filter(|(_, reply)| reply.is_some())
        .map(|(position, _)| position)
        .collect()
}

fn embeddings_of(delivery: &Delivery<Embedding>) -> Vec<Embedding> {
    match &delivery.reply {
        Ok(response) => response.embeddings.clone(),
        Err(failure) => panic!("an error was delivered: {:?}", failure),
    }
}

#[test]
fn each_request_gets_its_own_slice_in_input_order() {
    let (batch, _receivers) = batch_of(&[&["a1", "a2"], &["b1"], &["c1", "c2", "c3"]]);
    let embeddings: Vec<Embedding> = (0..6).map(|i| embedding(i as f32)).collect();
    let deliveries = BatchProcessor::success_deliveries(
        batch,
        embeddings,
        None,
        Instant::now(),
        Duration::from_millis(12),
    );
    assert_eq!(deliveries.len(), 3);
    assert_eq!(
        embeddings_of(&deliveries[0]),
        vec![embedding(0.0), embedding(1.0)]
    );
    assert_eq!(embeddings_of(&deliveries[1]), vec![embedding(2.0)]);
    assert_eq!(
        embeddings_of(&deliveries[2]),
        vec![embedding(3.0), embedding(4.0), embedding(5.0)]
    );
}

#[test]
fn equal_inputs_of_different_requests_get_their_own_embeddings() {
    let (batch, _receivers) = batch_of(&[&["Hello"], &["Hello"]]);
    let deliveries = BatchProcessor::success_deliveries(
        batch,
        vec![embedding(1.0), embedding(2.0)],
        None,
        Instant::now(),
        Duration::from_millis(1),
    );
    assert_eq!(embeddings_of(&deliveries[0]), vec![embedding(1.0)]);
    assert_eq!(embeddings_of(&deliveries[1]), vec![embedding(2.0)]);
}

#[test]
fn too_few_embeddings_leave_the_affected_requests_empty() {
    let (batch, _receivers) = batch_of(&[&["a1"], &["b1", "b2"], &["c1"]]);
    let deliveries = BatchProcessor::success_deliveries(
        batch,
        vec![embedding(0.0), embedding(1.0)],
        None,
        Instant::now(),
        Duration::from_millis(1),
    );
    assert_eq!(deliveries.len(), 3);
    assert_eq!(embeddings_of(&deliveries[0]), vec![embedding(0.0)]);
    assert!(embeddings_of(&deliveries[1]).is_empty());
    assert!(embeddings_of(&deliveries[2]).is_empty());
}

#[test]
fn no_embeddings_at_all_leave_every_request_empty() {
    let (batch, _receivers) = batch_of(&[&["a1"], &["b1"]]);
    let deliveries = BatchProcessor::success_deliveries(
        batch,
        Vec::new(),
        None,
        Instant::now(),
        Duration::from_millis(1),
    );
    assert!(embeddings_of(&deliveries[0]).is_empty());
    assert!(embeddings_of(&deliveries[1]).is_empty());
}

#[test]
fn surplus_embeddings_are_left_over() {
    let (batch, _receivers) = batch_of(&[&["a1"], &["b1"]]);
    let deliveries = BatchProcessor::success_deliveries(
        batch,
        vec![embedding(0.0), embedding(1.0), embedding(2.0)],
        None,
        Instant::now(),
        Duration::from_millis(1),
    );
    assert_eq!(embeddings_of(&deliveries[0]), vec![embedding(0.0)]);
    assert_eq!(embeddings_of(&deliveries[1]), vec![embedding(1.0)]);
}

#[test]
fn completed_info_carries_size_and_times() {
    let (batch, _receivers) = batch_of(&[&["a1"], &["b1"]]);
    let started = Instant::now();
    let deliveries = BatchProcessor::success_deliveries(
        batch,
        vec![embedding(0.0), embedding(1.0)],
        Some(emitted_info()),
        started,
        Duration::from_micros(12_999),
    );
    assert_eq!(deliveries.len(), 2);
    for delivery in &deliveries {
        let info = delivery.reply.as_ref().unwrap().batch_info.unwrap();
        assert_eq!(info.batch_id, 7);
        assert_eq!(info.batch_type, BatchType::MaxWaitTimeMs);
        assert_eq!(info.batch_size, Some(2));
        assert_eq!(info.batch_wait_time_ms, Some(500));
        assert_eq!(info.inference_time_ms, Some(12));
        assert!(info.processing_time_ms.is_some());
        assert!(info.processing_time_ms.unwrap() <= started.elapsed().as_millis());
    }
}

#[test]
fn responses_carry_no_info_where_none_was_emitted() {
    let (batch, _receivers) = batch_of(&[&["a1"]]);
    let deliveries = BatchProcessor::success_deliveries(
        batch,
        vec![embedding(0.0)],
        None,
        Instant::now(),
        Duration::from_millis(3),
    );
    assert!(deliveries[0].reply.as_ref().unwrap().batch_info.is_none());
}

#[test]
fn every_waiter_receives_exactly_its_own_answer() {
    let (batch, mut receivers) = batch_of(&[&["a1", "a2"], &["b1"]]);
    let returned = BatchProcessor::handle_batch_success(
        batch,
        vec![embedding(0.0), embedding(1.0), embedding(2.0)],
        Some(emitted_info()),
        Instant::now(),
        Duration::from_millis(5),
    );
    assert_eq!(returned.len(), 2);
    assert!(unclaimed_positions(&returned).is_empty());
    let first = receivers[0].try_recv().unwrap().unwrap();
    assert_eq!(first.embeddings, vec![embedding(0.0), embedding(1.0)]);
    let second = receivers[1].try_recv().unwrap().unwrap();
    assert_eq!(second.embeddings, vec![embedding(2.0)]);
    assert!(receivers[0].try_recv().is_err());
    assert!(receivers[1].try_recv().is_err());
}

#[test]
fn a_waiter_that_gave_up_does_not_hold_back_the_others() {
    let (batch, mut receivers) = batch_of(&[&["a1"], &["b1"], &["c1"]]);
    let gone = receivers.remove(1);
    drop(gone);
    let returned = BatchProcessor::handle_batch_success(
        batch,
        vec![embedding(0.0), embedding(1.0), embedding(2.0)],
        None,
        Instant::now(),
        Duration::from_millis(5),
    );
    assert_eq!(returned.len(), 3);
    assert_eq!(unclaimed_positions(&returned), vec![1]);
    let came_back = returned[1].as_ref().unwrap().as_ref().unwrap();
    assert_eq!(came_back.embeddings, vec![embedding(1.0)]);
    assert_eq!(
        receivers[0].try_recv().unwrap().unwrap().embeddings,
        vec![embedding(0.0)]
    );
    assert_eq!(
        receivers[1].try_recv().unwrap().unwrap().embeddings,
        vec![embedding(2.0)]
    );
}

#[test]
fn a_failure_is_reported_to_every_request_of_the_batch() {
    let (batch, mut receivers) = batch_of(&[&["a1"], &["b1", "b2"]]);
    let error = InferenceError::HttpError {
        status: StatusCode::INTERNAL_SERVER_ERROR,
        body: "model crashed".to_string(),
    };
    let returned = BatchProcessor::handle_batch_error(batch, error);
    assert_eq!(returned.len(), 2);
    assert!(unclaimed_positions(&returned).is_empty());
    for receiver in receivers.iter_mut() {
        let failure = receiver.try_recv().unwrap().unwrap_err();
        assert_eq!(failure.0.code, 503);
        assert_eq!(
            failure.1.error,
            "HTTP 500 Internal Server Error: model crashed"
        );
    }
}

#[test]
fn error_deliveries_keep_the_order_of_the_batch() {
    let (batch, _receivers) = batch_of(&[&["a1"], &["b1"], &["c1"]]);
    let error = InferenceError::HttpError {
        status: StatusCode::UNPROCESSABLE_ENTITY,
        body: "bad".to_string(),
    };
    let deliveries = BatchProcessor::error_deliveries(batch, error);
    assert_eq!(deliveries.len(), 3);
    for delivery in &deliveries {
        let failure = delivery.reply.as_ref().unwrap_err();
        assert_eq!(failure.0.code, 400);
        assert_eq!(failure.1.error, "HTTP 422 Unprocessable Entity: bad");
    }
}

#[test]
fn outcome_of_the_call_decides_what_is_delivered() {
    let (batch, mut receivers) = batch_of(&[&["a1"]]);
    let returned = BatchProcessor::complete_batch(
        batch,
        Ok(vec![embedding(4.0)]),
        None,
        Instant::now(),
        Duration::from_millis(2),
    );
    assert_eq!(returned.len(), 1);
    assert!(returned[0].is_none());
    assert_eq!(
        receivers[0].try_recv().unwrap().unwrap().embeddings,
        vec![embedding(4.0)]
    );

    let (batch, mut receivers) = batch_of(&[&["a1"]]);
    let outcome: Result<Vec<Embedding>, InferenceError> = Err(InferenceError::HttpError {
        status: StatusCode::NOT_FOUND,
        body: String::new(),
    });
    let returned =
        BatchProcessor::complete_batch(batch, outcome, None, Instant::now(), Duration::from_millis(2));
    assert_eq!(returned.len(), 1);
    assert!(returned[0].is_none());
    assert_eq!(receivers[0].try_recv().unwrap().unwrap_err().0.code, 400);

    let (batch, _receivers) = batch_of(&[&["a1"], &["b1"]]);
    let deliveries = BatchProcessor::outcome_deliveries(
        batch,
        Ok(vec![embedding(1.0), embedding(2.0)]),
        None,
        Instant::now(),
        Duration::from_millis(2),
    );
    assert_eq!(embeddings_of(&deliveries[1]), vec![embedding(2.0)]);
}

#[test]
fn delivering_nothing_loses_nothing() {
    let deliveries: Vec<Delivery<Embedding>> = Vec::new();
    assert!(BatchProcessor::deliver_all(deliveries).is_empty());
}

#[test]
fn a_failure_report_that_finds_no_waiter_comes_back() {
    let (batch, mut receivers) = batch_of(&[&["a1"], &["b1"]]);
    drop(receivers.remove(0));
    let error = InferenceError::HttpError {
        status: StatusCode::NOT_FOUND,
        body: "gone".to_string(),
    };
    let returned = BatchProcessor::handle_batch_error(batch, error);
    assert_eq!(unclaimed_positions(&returned), vec![0]);
    let came_back = returned[0].as_ref().unwrap().as_ref().unwrap_err();
    assert_eq!(came_back.0.code, 400);
    assert_eq!(came_back.1.error, "HTTP 404 Not Found: gone");
    let answered = receivers[0].try_recv().unwrap().unwrap_err();
    assert_eq!(answered.0.code, 400);
}

#[test]
fn replies_come_back_at_the_positions_of_their_deliveries() {
    let (batch, mut receivers) = batch_of(&[&["a1"], &["b1", "b2"], &["c1"], &["d1"]]);
    drop(receivers.remove(3));
    drop(receivers.remove(1));
    let embeddings: Vec<Embedding> = (0..5).map(|i| embedding(i as f32)).collect();
    let deliveries = BatchProcessor::success_deliveries(
        batch,
        embeddings,
        None,
        Instant::now(),
        Duration::from_millis(1),
    );
    let returned = BatchProcessor::deliver_all(deliveries);
    assert_eq!(returned.len(), 4);
    assert_eq!(unclaimed_positions(&returned), vec![1, 3]);
    assert_eq!(
        returned[1].as_ref().unwrap().as_ref().unwrap().embeddings,
        vec![embedding(1.0), embedding(2.0)]
    );
    assert_eq!(
        returned[3].as_ref().unwrap().as_ref().unwrap().embeddings,
        vec![embedding(4.0)]
    );
    assert_eq!(
        receivers[0].try_recv().unwrap().unwrap().embeddings,
        vec![embedding(0.0)]
    );
    assert_eq!(
        receivers[1].try_recv().unwrap().unwrap().embeddings,
        vec![embedding(3.0)]
    );
}

#[test]
fn processing_time_is_measured_from_the_start_of_the_call() {
    let (batch, _receivers) = batch_of(&[&["a1"], &["b1"]]);
    let now = Instant::now();
    let started = now.checked_sub(Duration::from_millis(250)).unwrap_or(now);
    let head_start = now.duration_since(started).as_millis();
    let deliveries = BatchProcessor::success_deliveries(
        batch,
        vec![embedding(0.0), embedding(1.0)],
        Some(emitted_info()),
        started,
        Duration::from_millis(200),
    );
    let upper = started.elapsed().as_millis();
    let mut earlier = head_start;
    for delivery in &deliveries {
        let info = delivery.reply.as_ref().unwrap().batch_info.unwrap();
        let processing = info.processing_time_ms.unwrap();
        assert!(processing >= earlier);
        assert!(processing <= upper);
        assert_eq!(info.inference_time_ms, Some(200));
        earlier = processing;
    }
}

#[test]
fn processing_time_is_zero_for_a_start_that_lies_ahead() {
    let (batch, _receivers) = batch_of(&[&["a1"]]);
    let started = Instant::now() + Duration::from_secs(3600);
    let deliveries = BatchProcessor::success_deliveries(
        batch,
        vec![embedding(0.0)],
        Some(emitted_info()),
        started,
        Duration::from_millis(1),
    );
    let info = deliveries[0].reply.as_ref().unwrap().batch_info.unwrap();
    assert_eq!(info.processing_time_ms, Some(0));
}

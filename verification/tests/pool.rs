use cassini::digest::Digest;
use cassini::mining::{Worker, WorkerAction, WorkerMessage, WorkerState};
use cassini::pool::{submission_outcome, template_update};
use cassini::pool::{Failure, Pool, SubmissionOutcome, TemplateResponse, WorkResponse};
use rand::rngs::StdRng;
use rand::SeedableRng;

fn worker(seed: u64) -> Worker {
    Worker::new(StdRng::seed_from_u64(seed))
}

fn template(seed: u64, threshold: Digest) -> TemplateResponse {
    TemplateResponse {
        id: Digest::new([seed, 1, 2, 3, 4]),
        kernel_auth_path: [Digest::new([seed, 5, 6, 7, 8]), Digest::new([9, seed, 10, 11, 12])],
        header_auth_path: [
            Digest::new([13, 14, seed, 15, 16]),
            Digest::new([17, 18, 19, seed, 20]),
            Digest::new([21, 22, 23, 24, seed]),
        ],
        threshold,
    }
}

fn pool() -> Pool {
    Pool::new("http://pool.example:8080".to_string(), "miner-address".to_string())
}

#[test]
fn endpoints_extend_the_base_url() {
    assert_eq!(pool().template_endpoint(), "http://pool.example:8080/template");
    assert_eq!(pool().submit_endpoint(), "http://pool.example:8080/submit_work");
}

#[test]
fn endpoints_of_an_empty_url() {
    let pool = Pool::new(String::new(), String::new());
    assert_eq!(pool.template_endpoint(), "/template");
    assert_eq!(pool.submit_endpoint(), "/submit_work");
}

#[test]
fn work_request_spells_digests_in_hex() {
    let id = Digest::new([1, 0, 0, 0, 0]);
    let nonce = Digest::new([0, 0, 0, 0, 0xab]);
    let request = pool().work_request(id, nonce);
    assert_eq!(request.id, format!("01{}", "0".repeat(78)));
    assert_eq!(request.nonce, format!("{}ab{}", "0".repeat(64), "0".repeat(14)));
    assert_eq!(request.address, "miner-address");
}

#[test]
fn work_request_keeps_template_and_nonce_apart() {
    let id = Digest::new([1, 2, 3, 4, 5]);
    let nonce = Digest::new([5, 4, 3, 2, 1]);
    let request = pool().work_request(id, nonce);
    assert_eq!(request.id, id.to_hex());
    assert_eq!(request.nonce, nonce.to_hex());
    assert_ne!(request.id, request.nonce);
}

#[test]
fn fetched_template_is_published() {
    let fetched = template(3, Digest::max());
    assert_eq!(template_update(Ok(fetched)), WorkerMessage::NewTemplate(Some(fetched)));
}

#[test]
fn failed_fetch_publishes_no_template() {
    let transport = Failure::Transport("connection refused".to_string());
    let decode = Failure::Decode("missing field `threshold`".to_string());
    assert_eq!(template_update(Err(transport)), WorkerMessage::NewTemplate(None));
    assert_eq!(template_update(Err(decode)), WorkerMessage::NewTemplate(None));
}

#[test]
fn transport_failure_idles_every_worker() {
    let mut workers = vec![worker(1), worker(2), worker(3)];
    let held = template(4, Digest::max());
    for worker in workers.iter_mut() {
        worker.step(Some(WorkerMessage::NewTemplate(Some(held))));
        assert_eq!(worker.state(), WorkerState::Active(held));
    }
    let event = template_update(Err(Failure::Transport("timed out".to_string())));
    assert_eq!(event, WorkerMessage::NewTemplate(None));
    for worker in workers.iter_mut() {
        assert_eq!(worker.step(Some(event)), WorkerAction::Idle);
        assert_eq!(worker.state(), WorkerState::Idle);
    }
}

#[test]
fn accepted_submission() {
    let reply = Ok(WorkResponse { success: true, error: None });
    assert_eq!(submission_outcome(reply), SubmissionOutcome::Accepted);
}

#[test]
fn accepted_submission_ignores_the_error_text() {
    let reply = Ok(WorkResponse { success: true, error: Some("unused".to_string()) });
    assert_eq!(submission_outcome(reply), SubmissionOutcome::Accepted);
}

#[test]
fn rejected_submission_carries_the_reason() {
    let reply = Ok(WorkResponse { success: false, error: Some("stale".to_string()) });
    assert_eq!(submission_outcome(reply), SubmissionOutcome::Rejected(Some("stale".to_string())));
}

#[test]
fn rejected_submission_without_a_reason() {
    let reply = Ok(WorkResponse { success: false, error: None });
    assert_eq!(submission_outcome(reply), SubmissionOutcome::Rejected(None));
}

#[test]
fn failed_submission_keeps_the_failure() {
    let transport = Failure::Transport("connection reset".to_string());
    let decode = Failure::Decode("expected value".to_string());
    assert_eq!(submission_outcome(Err(transport.clone())), SubmissionOutcome::Failed(transport));
    assert_eq!(submission_outcome(Err(decode.clone())), SubmissionOutcome::Failed(decode));
}

#[test]
fn rejection_does_not_interrupt_later_submissions() {
    let replies = vec![
        Ok(WorkResponse { success: false, error: Some("stale".to_string()) }),
        Err(Failure::Transport("unreachable".to_string())),
        Ok(WorkResponse { success: true, error: None }),
        Err(Failure::Decode("not json".to_string())),
        Ok(WorkResponse { success: true, error: None }),
    ];
    let outcomes: Vec<SubmissionOutcome> = replies.into_iter().map(submission_outcome).collect();
    assert_eq!(
        outcomes,
        vec![
            SubmissionOutcome::Rejected(Some("stale".to_string())),
            SubmissionOutcome::Failed(Failure::Transport("unreachable".to_string())),
            SubmissionOutcome::Accepted,
            SubmissionOutcome::Failed(Failure::Decode("not json".to_string())),
            SubmissionOutcome::Accepted,
        ]
    );
}

use apiverifier::envelope::{attest_fetch, seal_response, ApiResponse};
use apiverifier::hashing::generate_request_hash;
use apiverifier::receipt::{
    accept_envelope, check_artifact, image_id_hex, prepare_input, PipelineError,
};
use apiverifier::session::{
    classify_status, drive_session, poll_step, PollAction, SessionStatus,
};

fn sample_response() -> ApiResponse {
    ApiResponse { some_response_param: "some value".to_string() }
}

#[test]
fn sealed_envelope_carries_commitment_of_url() {
    let url = "https://api.example.com/x";
    let envelope = seal_response(sample_response(), url);
    assert_eq!(envelope.request_hash, generate_request_hash(url));
    assert_eq!(envelope.response.some_response_param, "some value");
}

#[test]
fn successful_fetch_yields_accepted_envelope() {
    let url = "https://api.example.com/x";
    let envelope = attest_fetch(Ok(sample_response()), url).unwrap();
    assert!(accept_envelope(true, &envelope, url));
}

#[test]
fn failed_fetch_attests_nothing() {
    let url = "https://api.example.com/x";
    let attested = attest_fetch(Err("connection refused".to_string()), url);
    assert!(attested.is_none());
}

#[test]
fn classify_recognises_backend_status_words() {
    let running = classify_status("RUNNING".to_string(), Some("Executor".to_string()), None, None);
    assert!(matches!(running, SessionStatus::Running { .. }));

    let succeeded = classify_status(
        "SUCCEEDED".to_string(),
        None,
        Some("https://storage.example.com/receipt".to_string()),
        None,
    );
    assert!(matches!(succeeded, SessionStatus::Succeeded { .. }));

    let failed = classify_status(
        "FAILED".to_string(),
        None,
        None,
        Some("guest panicked".to_string()),
    );
    match failed {
        SessionStatus::Failed { status, error_msg } => {
            assert_eq!(status, "FAILED");
            assert_eq!(error_msg.as_deref(), Some("guest panicked"));
        }
        _ => panic!("FAILED must classify as a terminal failure"),
    }

    let timed_out = classify_status("TIMED_OUT".to_string(), None, None, None);
    assert!(matches!(timed_out, SessionStatus::Failed { .. }));
}

#[test]
fn poll_step_decides_each_state() {
    let action = poll_step(SessionStatus::Running { state: None });
    assert!(matches!(action, PollAction::Continue));

    let action = poll_step(SessionStatus::Succeeded {
        receipt_url: Some("https://storage.example.com/receipt".to_string()),
    });
    match action {
        PollAction::Download(url) => assert_eq!(url, "https://storage.example.com/receipt"),
        _ => panic!("a successful session with a receipt URL must be downloaded"),
    }

    let action = poll_step(SessionStatus::Succeeded { receipt_url: None });
    assert!(matches!(action, PollAction::MissingReceiptUrl));

    let action = poll_step(SessionStatus::Failed {
        status: "ABORTED".to_string(),
        error_msg: None,
    });
    assert!(matches!(action, PollAction::Failed { .. }));
}

#[test]
fn running_three_times_then_succeeded_downloads_once() {
    let reports = vec![
        SessionStatus::Running { state: Some("Setup".to_string()) },
        SessionStatus::Running { state: Some("Executor".to_string()) },
        SessionStatus::Running { state: Some("Finalize".to_string()) },
        SessionStatus::Succeeded {
            receipt_url: Some("https://storage.example.com/receipt".to_string()),
        },
    ];
    match drive_session(&reports) {
        PollAction::Download(url) => assert_eq!(url, "https://storage.example.com/receipt"),
        _ => panic!("the run must end in exactly the one download"),
    }
}

#[test]
fn reports_after_the_first_terminal_one_are_ignored() {
    let reports = vec![
        SessionStatus::Running { state: None },
        SessionStatus::Failed { status: "FAILED".to_string(), error_msg: None },
        SessionStatus::Succeeded {
            receipt_url: Some("https://storage.example.com/receipt".to_string()),
        },
    ];
    assert!(matches!(drive_session(&reports), PollAction::Failed { .. }));
}

#[test]
fn only_running_reports_keep_polling() {
    let reports = vec![
        SessionStatus::Running { state: None },
        SessionStatus::Running { state: None },
    ];
    assert!(matches!(drive_session(&reports), PollAction::Continue));
    assert!(matches!(drive_session(&vec![]), PollAction::Continue));
}

#[test]
fn succeeded_without_receipt_url_is_a_protocol_violation() {
    let reports = vec![
        SessionStatus::Running { state: None },
        SessionStatus::Succeeded { receipt_url: None },
    ];
    assert!(matches!(drive_session(&reports), PollAction::MissingReceiptUrl));
}

#[test]
fn malformed_artifact_is_rejected_distinctly() {
    let image_id = [0u8; 32];
    let outcome = check_artifact(&[], &image_id);
    assert!(matches!(outcome, Err(PipelineError::MalformedArtifact)));
    let outcome = check_artifact(&[0x17, 0x2a, 0x00, 0x01, 0xff], &image_id);
    assert!(matches!(outcome, Err(PipelineError::MalformedArtifact)));
}

#[test]
fn decodable_but_unproven_artifact_fails_verification() {
    let image_id = [7u8; 32];
    let journal_bytes: Vec<u8> = vec![1, 2, 3, 4];
    let claim = risc0_zkvm::ReceiptClaim::ok(
        risc0_zkvm::Digest::from(image_id),
        journal_bytes.clone(),
    );
    let receipt = risc0_zkvm::Receipt::new(
        risc0_zkvm::InnerReceipt::Fake(risc0_zkvm::FakeReceipt::new(claim)),
        journal_bytes,
    );
    let bytes = bincode::serde::encode_to_vec(&receipt, bincode::config::legacy()).unwrap();
    let outcome = check_artifact(&bytes, &image_id);
    assert!(matches!(outcome, Err(PipelineError::VerificationFailed)));

    let truncated = &bytes[..bytes.len() - 1];
    assert!(check_artifact(truncated, &image_id).is_err());
}

#[test]
fn unreadable_program_has_no_identity() {
    let outcome = image_id_hex(&[1, 2, 3]);
    assert!(matches!(outcome, Err(PipelineError::InvalidProgram)));
}

#[test]
fn input_encoding_is_word_aligned() {
    let bytes = prepare_input("abc").unwrap();
    assert_eq!(bytes.len(), 8);
    let bytes = prepare_input("").unwrap();
    assert_eq!(bytes.len(), 4);
}

#[test]
fn tampered_commitment_is_rejected_even_with_valid_receipt() {
    let url = "https://api.example.com/x";
    let mut envelope = seal_response(sample_response(), url);
    envelope.request_hash = generate_request_hash("https://api.example.com/y");
    assert!(!accept_envelope(true, &envelope, url));
}

#[test]
fn invalid_receipt_is_rejected_even_with_matching_commitment() {
    let url = "https://api.example.com/x";
    let envelope = seal_response(sample_response(), url);
    assert!(!accept_envelope(false, &envelope, url));
}

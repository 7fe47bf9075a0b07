//! Tests for submission classification, the bounded poller and the
//! per-contract pipeline with its batch.

use contract_verification_migrator::model::{
    ConversionError, NameStyle, SourceEncoding, SourceMetadata, VerificationResult,
};
use contract_verification_migrator::pipeline::{
    run_batch, run_pipeline, MigrationError, PipelineScript,
};
use contract_verification_migrator::poll::{
    classify_poll, PollDecision, PollError, PollResponse, PollStep, Poller, MAX_POLL_ATTEMPTS,
};
use contract_verification_migrator::submit::{
    classify_submission, SubmissionOutcome, SubmitResponse,
};

const GOOD_ADDRESS: &str = "0xE592427A0AEce92De3Edee1F18E0157C05861564";

fn metadata() -> SourceMetadata {
    SourceMetadata {
        contract_name: "Counter".to_string(),
        compiler_version: "v0.8.19".to_string(),
        evm_version: "london".to_string(),
        optimization_used: 1,
        runs: 200,
        constructor_arguments: vec![],
        source_code: SourceEncoding::SingleFile {
            content: "contract Counter {}".to_string(),
        },
    }
}

fn submit_ok(id: &str) -> Result<SubmitResponse, String> {
    Ok(SubmitResponse {
        message: "OK".to_string(),
        result: id.to_string(),
    })
}

fn poll_reply(status: &str, result: &str) -> Result<PollResponse, String> {
    Ok(PollResponse {
        status: status.to_string(),
        result: result.to_string(),
    })
}

fn pending_reply() -> Result<PollResponse, String> {
    poll_reply("1", "Pending in queue")
}

#[test]
fn submission_ok_carries_id() {
    let o = classify_submission(&SubmitResponse {
        message: "OK".to_string(),
        result: "abc123".to_string(),
    });
    assert_eq!(o, SubmissionOutcome::Submitted("abc123".to_string()));
}

#[test]
fn submission_already_verified_is_case_insensitive() {
    for text in [
        "Contract source code already verified",
        "Contract source code ALREADY VERIFIED",
        "Already Verified",
        "smart-contract AlReAdY vErIfIeD today",
    ] {
        let o = classify_submission(&SubmitResponse {
            message: "NOTOK".to_string(),
            result: text.to_string(),
        });
        assert_eq!(o, SubmissionOutcome::AlreadyVerified, "on {text:?}");
    }
}

#[test]
fn submission_other_failure_is_rejected_with_reason() {
    let o = classify_submission(&SubmitResponse {
        message: "NOTOK".to_string(),
        result: "Invalid API key".to_string(),
    });
    assert_eq!(o, SubmissionOutcome::Rejected("Invalid API key".to_string()));
}

#[test]
fn poll_classification_order() {
    let case = |status: &str, result: &str| {
        classify_poll(&PollResponse {
            status: status.to_string(),
            result: result.to_string(),
        })
    };
    assert_eq!(case("1", "Unable to verify: compiler mismatch"), PollDecision::UnableToVerify);
    assert_eq!(case("1", "Already Verified"), PollDecision::AlreadyVerified);
    assert_eq!(case("0", "something odd"), PollDecision::FailedToVerify);
    assert_eq!(case("1", "Pass - Verified"), PollDecision::Success);
    assert_eq!(case("1", "Pending in queue"), PollDecision::Pending);
    // The unable-to-verify text wins over every later signal.
    assert_eq!(case("0", "Unable to verify."), PollDecision::UnableToVerify);
}

#[test]
fn poller_times_out_on_tenth_pending() {
    let mut poller = Poller::new();
    let pending = PollResponse {
        status: "1".to_string(),
        result: "Pending in queue".to_string(),
    };
    for _ in 0..(MAX_POLL_ATTEMPTS - 1) {
        assert_eq!(poller.on_response(&pending), PollStep::Continue);
    }
    assert_eq!(poller.on_response(&pending), PollStep::Done(Err(PollError::TimedOut)));
    assert_eq!(poller.attempts, MAX_POLL_ATTEMPTS);
}

#[test]
fn pipeline_times_out_after_exactly_ten_pending_polls() {
    // Twelve pending-shaped replies are scripted; only ten may be consumed.
    let polls: Vec<_> = (0..12).map(|_| pending_reply()).collect();
    let (outcome, used) = run_pipeline(
        GOOD_ADDRESS,
        NameStyle::FileQualified,
        Ok(metadata()),
        submit_ok("id-1"),
        &polls,
    );
    assert_eq!(outcome, Err(MigrationError::Poll(PollError::TimedOut)));
    assert_eq!(used, 10);
}

#[test]
fn pipeline_success_after_first_poll() {
    // Scenario: single-file source, optimizer enabled, runs 200; the first
    // status reply carries the pass marker.
    let polls = vec![poll_reply("1", "Pass - Verified"), pending_reply()];
    let (outcome, used) = run_pipeline(
        GOOD_ADDRESS,
        NameStyle::FileQualified,
        Ok(metadata()),
        submit_ok("id-2"),
        &polls,
    );
    assert_eq!(outcome, Ok(VerificationResult::Success));
    assert_eq!(used, 1);
}

#[test]
fn pipeline_already_verified_submission_skips_polling() {
    // Scenario: the submission reply is NOTOK with an already-verified
    // result text; no status reply may be consumed.
    let polls = vec![poll_reply("1", "Pass - Verified")];
    let (outcome, used) = run_pipeline(
        GOOD_ADDRESS,
        NameStyle::FileQualified,
        Ok(metadata()),
        Ok(SubmitResponse {
            message: "NOTOK".to_string(),
            result: "Contract source code already verified".to_string(),
        }),
        &polls,
    );
    assert_eq!(outcome, Ok(VerificationResult::AlreadyVerified));
    assert_eq!(used, 0);
}

#[test]
fn pipeline_unable_to_verify_stops_after_first_poll() {
    // Scenario: the first status reply says unable to verify; polling stops.
    let polls = vec![
        poll_reply("1", "Unable to verify: compiler mismatch"),
        poll_reply("1", "Pass - Verified"),
    ];
    let (outcome, used) = run_pipeline(
        GOOD_ADDRESS,
        NameStyle::FileQualified,
        Ok(metadata()),
        submit_ok("id-3"),
        &polls,
    );
    assert_eq!(outcome, Err(MigrationError::Poll(PollError::UnableToVerify)));
    assert_eq!(used, 1);
}

#[test]
fn pipeline_poll_already_verified() {
    let polls = vec![poll_reply("1", "Already Verified")];
    let (outcome, used) = run_pipeline(
        GOOD_ADDRESS,
        NameStyle::Bare,
        Ok(metadata()),
        submit_ok("id-4"),
        &polls,
    );
    assert_eq!(outcome, Ok(VerificationResult::AlreadyVerified));
    assert_eq!(used, 1);
}

#[test]
fn pipeline_explorer_reported_failure() {
    let polls = vec![pending_reply(), poll_reply("0", "Fail - Unable to process")];
    let (outcome, used) = run_pipeline(
        GOOD_ADDRESS,
        NameStyle::Bare,
        Ok(metadata()),
        submit_ok("id-5"),
        &polls,
    );
    assert_eq!(outcome, Err(MigrationError::Poll(PollError::FailedToVerify)));
    assert_eq!(used, 2);
}

#[test]
fn pipeline_fetch_error_is_tagged() {
    let (outcome, used) = run_pipeline(
        GOOD_ADDRESS,
        NameStyle::Bare,
        Err("connection refused".to_string()),
        submit_ok("unused"),
        &vec![],
    );
    assert_eq!(outcome, Err(MigrationError::Fetch("connection refused".to_string())));
    assert_eq!(used, 0);
}

#[test]
fn pipeline_submit_transport_error_is_tagged() {
    let (outcome, used) = run_pipeline(
        GOOD_ADDRESS,
        NameStyle::Bare,
        Ok(metadata()),
        Err("timeout".to_string()),
        &vec![],
    );
    assert_eq!(outcome, Err(MigrationError::SubmitTransport("timeout".to_string())));
    assert_eq!(used, 0);
}

#[test]
fn pipeline_poll_transport_error_is_tagged() {
    let polls = vec![pending_reply(), Err("reset by peer".to_string())];
    let (outcome, used) = run_pipeline(
        GOOD_ADDRESS,
        NameStyle::Bare,
        Ok(metadata()),
        submit_ok("id-6"),
        &polls,
    );
    assert_eq!(outcome, Err(MigrationError::PollTransport("reset by peer".to_string())));
    assert_eq!(used, 2);
}

#[test]
fn pipeline_submission_rejected() {
    let (outcome, used) = run_pipeline(
        GOOD_ADDRESS,
        NameStyle::Bare,
        Ok(metadata()),
        Ok(SubmitResponse {
            message: "NOTOK".to_string(),
            result: "Invalid chain".to_string(),
        }),
        &vec![],
    );
    assert_eq!(outcome, Err(MigrationError::Submission("Invalid chain".to_string())));
    assert_eq!(used, 0);
}

#[test]
fn batch_isolates_one_failing_pipeline() {
    // Three contracts; the middle one has a malformed address. The other
    // two still produce their own terminal outcomes, and the batch holds
    // exactly three entries in input order.
    let scripts = vec![
        PipelineScript {
            address: GOOD_ADDRESS.to_string(),
            fetch: Ok(metadata()),
            submit: submit_ok("id-a"),
            polls: vec![poll_reply("1", "Pass - Verified")],
        },
        PipelineScript {
            address: "0xnot-an-address".to_string(),
            fetch: Ok(metadata()),
            submit: submit_ok("id-b"),
            polls: vec![poll_reply("1", "Pass - Verified")],
        },
        PipelineScript {
            address: GOOD_ADDRESS.to_string(),
            fetch: Ok(metadata()),
            submit: Ok(SubmitResponse {
                message: "NOTOK".to_string(),
                result: "Already Verified".to_string(),
            }),
            polls: vec![],
        },
    ];
    let results = run_batch(scripts, NameStyle::FileQualified);
    assert_eq!(results.len(), 3);
    assert_eq!(results[0].0, GOOD_ADDRESS);
    assert_eq!(results[0].1, Ok(VerificationResult::Success));
    assert_eq!(results[1].0, "0xnot-an-address");
    assert_eq!(
        results[1].1,
        Err(MigrationError::Conversion(ConversionError::InvalidAddress))
    );
    assert_eq!(results[2].0, GOOD_ADDRESS);
    assert_eq!(results[2].1, Ok(VerificationResult::AlreadyVerified));
}

#[test]
fn batch_of_empty_input_is_empty() {
    let results = run_batch(vec![], NameStyle::Bare);
    assert!(results.is_empty());
}

//! The per-contract migration pipeline and the batch over it.
//!
//! One contract moves through fetch, convert, submit and poll in that order,
//! short-circuiting on the first error; every error is tagged with the stage
//! that produced it. The pipeline here is the deterministic core: it takes
//! the responses the explorers gave — fetched metadata, the submission
//! reply, and the sequence of status replies — and computes the terminal
//! outcome, consuming at most ten status replies. The batch runs one
//! pipeline per address and collects exactly one outcome per address, in
//! input order.

use vstd::prelude::*;

verus! {

use crate::convert::convert_metadata_to_verification_request;
use crate::model::{
    ConversionError,
    NameStyle,
    SourceMetadata,
    VerificationResult,
    spec_valid_address,
};
use crate::poll::{
    MAX_POLL_ATTEMPTS,
    PollDecision,
    PollError,
    PollResponse,
    PollStep,
    Poller,
    spec_classify_poll,
};
use crate::submit::{SubmissionOutcome, SubmitResponse, classify_submission,
    spec_already_verified_signal};

/// Why a contract's migration failed. Each variant names the stage that
/// produced the error, so a transient transport problem can be told from a
/// permanent data problem.
#[derive(Debug, Clone, PartialEq, Eq)]
pub enum MigrationError {
    /// Fetching the metadata from the source explorer failed: the explorer
    /// was unreachable or returned no verified source for the address.
    Fetch(String),
    /// The metadata could not be reshaped into a request.
    Conversion(ConversionError),
    /// The target explorer rejected the submission for the given reason.
    Submission(String),
    /// The network failed while submitting to the target explorer.
    SubmitTransport(String),
    /// The target explorer reported a verification failure, or the retry
    /// budget ran out.
    Poll(PollError),
    /// The network failed while polling for the verdict.
    PollTransport(String),
}

/// The outcome of polling against a script of status replies, starting with
/// `used` responses already consumed, paired with the total count consumed.
/// A script that runs out with the contract still pending counts as timed
/// out.
pub open spec fn spec_poll_run(polls: Seq<Result<PollResponse, String>>, used: nat) -> (Result<
    VerificationResult,
    MigrationError,
>, nat)
    decreases polls.len(),
{
    if polls.len() == 0 {
        (Err(MigrationError::Poll(PollError::TimedOut)), used)
    } else {
        match polls[0] {
            Err(e) => (Err(MigrationError::PollTransport(e)), used + 1),
            Ok(resp) => match spec_classify_poll(resp.status@, resp.result@) {
                PollDecision::UnableToVerify => (
                    Err(MigrationError::Poll(PollError::UnableToVerify)),
                    used + 1,
                ),
                PollDecision::AlreadyVerified => (
                    Ok(VerificationResult::AlreadyVerified),
                    used + 1,
                ),
                PollDecision::FailedToVerify => (
                    Err(MigrationError::Poll(PollError::FailedToVerify)),
                    used + 1,
                ),
                PollDecision::Success => (Ok(VerificationResult::Success), used + 1),
                PollDecision::Pending => if used + 1 >= MAX_POLL_ATTEMPTS {
                    (Err(MigrationError::Poll(PollError::TimedOut)), used + 1)
                } else {
                    spec_poll_run(polls.drop_first(), used + 1)
                },
            },
        }
    }
}

/// The outcome of one contract's pipeline on the given responses, paired
/// with how many status replies it consumed: fetch, convert, submit and
/// poll, short-circuiting on the first error.
pub open spec fn spec_pipeline(
    address: Seq<char>,
    fetch: Result<SourceMetadata, String>,
    style: NameStyle,
    submit: Result<SubmitResponse, String>,
    polls: Seq<Result<PollResponse, String>>,
) -> (Result<VerificationResult, MigrationError>, nat) {
    match fetch {
        Err(e) => (Err(MigrationError::Fetch(e)), 0),
        Ok(meta) => if !spec_valid_address(address) {
            (Err(MigrationError::Conversion(ConversionError::InvalidAddress)), 0)
        } else {
            match submit {
                Err(e) => (Err(MigrationError::SubmitTransport(e)), 0),
                Ok(resp) => if resp.message@ == "OK"@ {
                    spec_poll_run(polls, 0)
                } else if spec_already_verified_signal(resp.result@) {
                    (Ok(VerificationResult::AlreadyVerified), 0)
                } else {
                    (Err(MigrationError::Submission(resp.result)), 0)
                },
            }
        },
    }
}

/// Drive the bounded poller through a script of status replies.
fn run_polls(polls: &Vec<Result<PollResponse, String>>) -> (r: (Result<
    VerificationResult,
    MigrationError,
>, usize))
    ensures
        r.0 == spec_poll_run(polls@, 0).0,
        r.1 as nat == spec_poll_run(polls@, 0).1,
{
    let mut poller = Poller::new();
    let mut i: usize = 0;
    proof {
        assert(polls@.skip(0) =~= polls@);
    }
    loop
        invariant
            i <= polls@.len(),
            poller.attempts == i,
            poller.can_poll(),
            spec_poll_run(polls@.skip(i as int), i as nat) == spec_poll_run(polls@, 0),
        decreases polls@.len() - i,
    {
        if i == polls.len() {
            proof {
                assert(polls@.skip(i as int).len() == 0);
            }
            return (Err(MigrationError::Poll(PollError::TimedOut)), i);
        }
        proof {
            assert(polls@.skip(i as int)[0] == polls@[i as int]);
            assert(polls@.skip(i as int).drop_first() =~= polls@.skip(i + 1 as int));
        }
        match &polls[i] {
            Err(e) => {
                return (Err(MigrationError::PollTransport(e.clone())), i + 1);
            },
            Ok(resp) => {
                let step = poller.on_response(resp);
                i += 1;
                match step {
                    PollStep::Done(res) => {
                        let mapped: Result<VerificationResult, MigrationError> = match res {
                            Ok(v) => Ok(v),
                            Err(pe) => Err(MigrationError::Poll(pe)),
                        };
                        return (mapped, i);
                    },
                    PollStep::Continue => {},
                }
            },
        }
    }
}

/// Run one contract's pipeline against the responses its explorers gave:
/// fetch result, submission reply, and the status replies in poll order.
/// Returns the terminal outcome and how many status replies were consumed.
pub fn run_pipeline(
    address: &str,
    style: NameStyle,
    fetch: Result<SourceMetadata, String>,
    submit: Result<SubmitResponse, String>,
    polls: &Vec<Result<PollResponse, String>>,
) -> (r: (Result<VerificationResult, MigrationError>, usize))
    ensures
        r.0 == spec_pipeline(address@, fetch, style, submit, polls@).0,
        r.1 as nat == spec_pipeline(address@, fetch, style, submit, polls@).1,
{
    let meta = match fetch {
        Ok(m) => m,
        Err(e) => { return (Err(MigrationError::Fetch(e)), 0); },
    };
    // The conversion stage decides whether the pipeline goes on; the request
    // it builds is what a live driver submits, but here the submission reply
    // is already part of the script.
    match convert_metadata_to_verification_request(address, &meta, style) {
        Ok(_request) => {},
        Err(ce) => { return (Err(MigrationError::Conversion(ce)), 0); },
    }
    let resp = match submit {
        Ok(r) => r,
        Err(e) => { return (Err(MigrationError::SubmitTransport(e)), 0); },
    };
    match classify_submission(&resp) {
        SubmissionOutcome::Submitted(_id) => run_polls(polls),
        SubmissionOutcome::AlreadyVerified => (Ok(VerificationResult::AlreadyVerified), 0),
        SubmissionOutcome::Rejected(reason) => (Err(MigrationError::Submission(reason)), 0),
    }
}

/// One contract's scripted pipeline inputs: its address and the responses
/// the explorers gave for it.
#[derive(Debug, PartialEq, Eq)]
pub struct PipelineScript {
    /// The contract address being migrated.
    pub address: String,
    /// What fetching the metadata from the source explorer returned.
    pub fetch: Result<SourceMetadata, String>,
    /// What submitting the request to the target explorer returned.
    pub submit: Result<SubmitResponse, String>,
    /// The status replies, in poll order.
    pub polls: Vec<Result<PollResponse, String>>,
}

/// Run one pipeline per contract and collect exactly one outcome per
/// contract, in input order: no entry is dropped, and one contract's
/// failure leaves every other entry exactly what its own pipeline computes.
pub fn run_batch(contracts: Vec<PipelineScript>, style: NameStyle) -> (r: Vec<
    (String, Result<VerificationResult, MigrationError>),
>)
    ensures
        r@.len() == contracts@.len(),
        forall|i: int|
            0 <= i < contracts@.len() ==> {
                let c = #[trigger] contracts@[i];
                &&& r@[i].0 == c.address
                &&& r@[i].1 == spec_pipeline(c.address@, c.fetch, style, c.submit, c.polls@).0
            },
{
    let ghost orig = contracts@;
    let mut rest = contracts;
    let mut out: Vec<(String, Result<VerificationResult, MigrationError>)> = Vec::new();
    while rest.len() > 0
        invariant
            out@.len() + rest@.len() == orig.len(),
            rest@ =~= orig.skip(out@.len() as int),
            forall|i: int|
                0 <= i < out@.len() ==> {
                    let c = #[trigger] orig[i];
                    &&& out@[i].0 == c.address
                    &&& out@[i].1 == spec_pipeline(
                        c.address@,
                        c.fetch,
                        style,
                        c.submit,
                        c.polls@,
                    ).0
                },
        decreases rest@.len(),
    {
        proof {
            assert(rest@[0] == orig[out@.len() as int]);
        }
        let c = rest.remove(0);
        let PipelineScript { address, fetch, submit, polls } = c;
        let res = run_pipeline(address.as_str(), style, fetch, submit, &polls);
        out.push((address, res.0));
        proof {
            assert(rest@ =~= orig.skip(out@.len() as int));
        }
    }
    out
}

/// A submission reply that signals already-verified settles the pipeline at
/// once: the outcome is already-verified and not a single status reply is
/// consumed, whatever the poll script holds.
pub proof fn lemma_already_verified_short_circuits(
    address: Seq<char>,
    meta: SourceMetadata,
    style: NameStyle,
    resp: SubmitResponse,
    polls: Seq<Result<PollResponse, String>>,
)
    requires
        spec_valid_address(address),
        resp.message@ != "OK"@,
        spec_already_verified_signal(resp.result@),
    ensures
        spec_pipeline(address, Ok(meta), style, Ok(resp), polls).0 == Ok::<
            VerificationResult,
            MigrationError,
        >(VerificationResult::AlreadyVerified),
        spec_pipeline(address, Ok(meta), style, Ok(resp), polls).1 == 0,
{
}

/// The status reply came back and left the contract still pending.
pub open spec fn spec_pending_shaped(p: Result<PollResponse, String>) -> bool {
    p matches Ok(resp) && spec_classify_poll(resp.status@, resp.result@) == PollDecision::Pending
}

/// Helper induction for the timeout law: from `used` responses already
/// consumed, a script of pending-shaped replies reaches the attempt bound.
proof fn lemma_poll_run_pending(polls: Seq<Result<PollResponse, String>>, used: nat)
    requires
        used < MAX_POLL_ATTEMPTS,
        polls.len() + used >= MAX_POLL_ATTEMPTS,
        forall|i: int| 0 <= i < polls.len() ==> spec_pending_shaped(#[trigger] polls[i]),
    ensures
        spec_poll_run(polls, used).0 == Err::<VerificationResult, MigrationError>(
            MigrationError::Poll(PollError::TimedOut),
        ),
        spec_poll_run(polls, used).1 == MAX_POLL_ATTEMPTS,
    decreases polls.len(),
{
    assert(spec_pending_shaped(polls[0]));
    if used + 1 >= MAX_POLL_ATTEMPTS {
    } else {
        assert(forall|i: int|
            0 <= i < polls.drop_first().len() ==> (#[trigger] polls.drop_first()[i]) == polls[i
                + 1]);
        lemma_poll_run_pending(polls.drop_first(), used + 1);
    }
}

/// Helper induction for the poll bound.
proof fn lemma_poll_run_bounded_from(polls: Seq<Result<PollResponse, String>>, used: nat)
    requires
        used < MAX_POLL_ATTEMPTS,
    ensures
        used <= spec_poll_run(polls, used).1 <= MAX_POLL_ATTEMPTS,
    decreases polls.len(),
{
    if polls.len() == 0 {
    } else if polls[0] matches Ok(resp) && spec_classify_poll(resp.status@, resp.result@)
        == PollDecision::Pending && used + 1 < MAX_POLL_ATTEMPTS {
        lemma_poll_run_bounded_from(polls.drop_first(), used + 1);
    }
}

/// Polling never runs unbounded: however the status replies fall, no run
/// consumes more than ten of them.
pub proof fn lemma_poll_run_bounded(polls: Seq<Result<PollResponse, String>>)
    ensures
        spec_poll_run(polls, 0).1 <= MAX_POLL_ATTEMPTS,
{
    lemma_poll_run_bounded_from(polls, 0);
}

/// When every status reply stays pending-shaped, polling stops by the
/// retry bound alone: exactly ten replies are consumed and the outcome is
/// the timeout error.
pub proof fn lemma_all_pending_times_out(polls: Seq<Result<PollResponse, String>>)
    requires
        polls.len() >= MAX_POLL_ATTEMPTS,
        forall|i: int| 0 <= i < polls.len() ==> spec_pending_shaped(#[trigger] polls[i]),
    ensures
        spec_poll_run(polls, 0).0 == Err::<VerificationResult, MigrationError>(
            MigrationError::Poll(PollError::TimedOut),
        ),
        spec_poll_run(polls, 0).1 == MAX_POLL_ATTEMPTS,
{
    lemma_poll_run_pending(polls, 0);
}

} // verus!

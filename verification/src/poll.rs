//! The bounded submit/poll state machine.
//!
//! After a submission is accepted, the target explorer is polled for the
//! verdict. Each status response either settles the contract — success,
//! already verified, or an explorer-reported failure — or leaves it pending,
//! in which case the caller waits a fixed interval and asks again. At most
//! ten responses are consumed in total; a contract still pending after the
//! tenth times out, so the loop never runs unbounded.

use vstd::prelude::*;

verus! {

use crate::model::VerificationResult;
use crate::text::{contains_chars, spec_contains, str_eq, str_to_chars};

/// The most poll responses one submission may consume, the first included.
pub const MAX_POLL_ATTEMPTS: u64 = 10;

/// Seconds to wait between two poll attempts.
pub const POLL_INTERVAL_SECS: u64 = 10;

/// One reply from the target explorer's status endpoint.
#[derive(Debug, Clone, PartialEq, Eq)]
pub struct PollResponse {
    /// The status flag; `0` signals an explorer-reported failure.
    pub status: String,
    /// The verdict text.
    pub result: String,
}

/// What one status response means, in the order the signals are examined.
#[derive(Debug, Clone, Copy, PartialEq, Eq, Structural)]
pub enum PollDecision {
    /// The verdict text says the explorer is unable to verify: fatal.
    UnableToVerify,
    /// The contract is already verified on the target.
    AlreadyVerified,
    /// The status flag signals a verification failure.
    FailedToVerify,
    /// The verdict text is the exact pass marker.
    Success,
    /// No terminal signal yet; ask again later.
    Pending,
}

/// Why polling ended without the contract verified.
#[derive(Debug, Clone, Copy, PartialEq, Eq, Structural)]
pub enum PollError {
    /// The explorer said it is unable to verify the contract.
    UnableToVerify,
    /// The status flag reported a verification failure.
    FailedToVerify,
    /// The retry budget ran out with the contract still pending.
    TimedOut,
}

/// The meaning of one status response. The signals are checked in a fixed
/// order: the unable-to-verify text, the already-verified text, the failure
/// status flag, the exact pass marker, and otherwise still pending.
pub open spec fn spec_classify_poll(status: Seq<char>, result: Seq<char>) -> PollDecision {
    if spec_contains(result, "Unable to verify"@) {
        PollDecision::UnableToVerify
    } else if result == "Already Verified"@ {
        PollDecision::AlreadyVerified
    } else if status == "0"@ {
        PollDecision::FailedToVerify
    } else if result == "Pass - Verified"@ {
        PollDecision::Success
    } else {
        PollDecision::Pending
    }
}

/// Classify one status response.
pub fn classify_poll(response: &PollResponse) -> (d: PollDecision)
    ensures
        d == spec_classify_poll(response.status@, response.result@),
{
    let result_chars = str_to_chars(response.result.as_str());
    let marker = str_to_chars("Unable to verify");
    if contains_chars(&result_chars, &marker) {
        return PollDecision::UnableToVerify;
    }
    if str_eq(response.result.as_str(), "Already Verified") {
        return PollDecision::AlreadyVerified;
    }
    if str_eq(response.status.as_str(), "0") {
        return PollDecision::FailedToVerify;
    }
    if str_eq(response.result.as_str(), "Pass - Verified") {
        return PollDecision::Success;
    }
    PollDecision::Pending
}

/// What the poller asks of its driver after one response: ask again after
/// the interval, or stop with a settled outcome.
#[derive(Debug, Clone, Copy, PartialEq, Eq)]
pub enum PollStep {
    /// Still pending and budget remains: wait the interval, poll again.
    Continue,
    /// Polling is over with this outcome.
    Done(Result<VerificationResult, PollError>),
}

/// The bounded poller: counts the responses consumed for one submission and
/// turns each into a [`PollStep`]. It accepts at most
/// [`MAX_POLL_ATTEMPTS`] responses.
#[derive(Debug, Clone, Copy, PartialEq, Eq, Structural)]
pub struct Poller {
    /// How many responses have been consumed.
    pub attempts: u64,
}

impl Poller {
    /// The poller may still consume a response.
    pub open spec fn can_poll(self) -> bool {
        self.attempts < MAX_POLL_ATTEMPTS
    }

    /// A fresh poller that has consumed nothing.
    pub fn new() -> (p: Poller)
        ensures
            p.attempts == 0,
            p.can_poll(),
    {
        Poller { attempts: 0 }
    }

    /// Consume one status response. A terminal signal settles the outcome;
    /// a pending response either continues within the budget or, on the
    /// last permitted attempt, times out.
    pub fn on_response(&mut self, response: &PollResponse) -> (s: PollStep)
        requires
            old(self).can_poll(),
        ensures
            final(self).attempts == old(self).attempts + 1,
            ({
                let d = spec_classify_poll(response.status@, response.result@);
                match d {
                    PollDecision::UnableToVerify => s == PollStep::Done(
                        Err::<VerificationResult, PollError>(PollError::UnableToVerify),
                    ),
                    PollDecision::AlreadyVerified => s == PollStep::Done(
                        Ok::<VerificationResult, PollError>(VerificationResult::AlreadyVerified),
                    ),
                    PollDecision::FailedToVerify => s == PollStep::Done(
                        Err::<VerificationResult, PollError>(PollError::FailedToVerify),
                    ),
                    PollDecision::Success => s == PollStep::Done(
                        Ok::<VerificationResult, PollError>(VerificationResult::Success),
                    ),
                    PollDecision::Pending => if old(self).attempts + 1 == MAX_POLL_ATTEMPTS {
                        s == PollStep::Done(
                            Err::<VerificationResult, PollError>(PollError::TimedOut),
                        )
                    } else {
                        s == PollStep::Continue && final(self).can_poll()
                    },
                }
            }),
    {
        self.attempts = self.attempts + 1;
        match classify_poll(response) {
            PollDecision::UnableToVerify => PollStep::Done(Err(PollError::UnableToVerify)),
            PollDecision::AlreadyVerified => PollStep::Done(
                Ok(VerificationResult::AlreadyVerified),
            ),
            PollDecision::FailedToVerify => PollStep::Done(Err(PollError::FailedToVerify)),
            PollDecision::Success => PollStep::Done(Ok(VerificationResult::Success)),
            PollDecision::Pending => {
                if self.attempts == MAX_POLL_ATTEMPTS {
                    PollStep::Done(Err(PollError::TimedOut))
                } else {
                    PollStep::Continue
                }
            },
        }
    }
}

} // verus!

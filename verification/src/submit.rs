//! Classifying the target explorer's submission response.
//!
//! The target answers a verification submission with a message and a result
//! text. An `OK` message carries the submission id. A non-`OK` message whose
//! result text contains an already-verified signal, compared without regard
//! to ASCII case, is a legitimate terminal outcome rather than a failure;
//! any other non-`OK` message is a rejection.

use vstd::prelude::*;

verus! {

use crate::text::{contains_chars, spec_contains, spec_to_lower, str_eq, str_to_chars, to_lower_chars};

/// The target explorer's reply to a verification submission.
#[derive(Debug, Clone, PartialEq, Eq)]
pub struct SubmitResponse {
    /// `OK` on acceptance; anything else signals a problem.
    pub message: String,
    /// The submission id on acceptance, otherwise the reason text.
    pub result: String,
}

/// What a submission response means.
#[derive(Debug, Clone, PartialEq, Eq)]
pub enum SubmissionOutcome {
    /// The request was accepted; poll this id for the verdict.
    Submitted(String),
    /// The target already holds a verification for this contract.
    AlreadyVerified,
    /// The target rejected the request for the given reason.
    Rejected(String),
}

/// The response's result text carries the already-verified signal, compared
/// without regard to ASCII case.
pub open spec fn spec_already_verified_signal(result: Seq<char>) -> bool {
    spec_contains(spec_to_lower(result), "already verified"@)
}

/// Classify a submission response: an `OK` message was accepted and carries
/// the submission id; a non-`OK` message is the already-verified outcome
/// when its result text signals it, and otherwise a rejection carrying the
/// result text as the reason.
pub fn classify_submission(response: &SubmitResponse) -> (o: SubmissionOutcome)
    ensures
        response.message@ == "OK"@ ==> o == SubmissionOutcome::Submitted(response.result),
        response.message@ != "OK"@ && spec_already_verified_signal(response.result@) ==> o
            == SubmissionOutcome::AlreadyVerified,
        response.message@ != "OK"@ && !spec_already_verified_signal(response.result@) ==> o
            == SubmissionOutcome::Rejected(response.result),
{
    if str_eq(response.message.as_str(), "OK") {
        return SubmissionOutcome::Submitted(response.result.clone());
    }
    let result_chars = str_to_chars(response.result.as_str());
    let lowered = to_lower_chars(&result_chars);
    let signal = str_to_chars("already verified");
    if contains_chars(&lowered, &signal) {
        SubmissionOutcome::AlreadyVerified
    } else {
        SubmissionOutcome::Rejected(response.result.clone())
    }
}

/// Already-verified detection is case-insensitive: two result texts that
/// agree up to ASCII case are classified alike.
pub proof fn lemma_already_verified_case_insensitive(r1: Seq<char>, r2: Seq<char>)
    requires
        spec_to_lower(r1) == spec_to_lower(r2),
    ensures
        spec_already_verified_signal(r1) == spec_already_verified_signal(r2),
{
}

} // verus!

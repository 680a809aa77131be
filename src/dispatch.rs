//! The operation dispatcher as two steps around the outside work: `decide`
//! turns a request into the work to do (or the reply, when there is none),
//! and `conclude` turns the work's result and its elapsed time into the
//! response. Timing and the simulated delays belong to the caller.

use vstd::prelude::*;
use crate::artifact::generated_text;
use crate::json::is_json_document;
use crate::request::{is_prove, is_verify, OperationRequest, Rejection, Validation};
use crate::response::{fixed_signals, OperationResponse};

verus! {

/// What the dispatcher asks the caller to do next.
pub enum Action {
    /// Run the generator on these fields, timing it.
    Generate { witness_data: Vec<i32>, max_balance: i32 },
    /// Run the verifier on these fields, timing it.
    Verify { proof_data: String, public_inputs: Vec<String> },
    /// Send this response; no work is done.
    Reply(OperationResponse),
}

/// The result of the work that an `Action` asked for.
pub enum Outcome {
    /// The generator's proof text.
    Generated(String),
    /// The verifier's verdict.
    Verified(bool),
}

/// The error message for a rejected request whose operation is `op`.
pub open spec fn rejection_text(j: Rejection, op: Seq<char>) -> Seq<char> {
    match j {
        Rejection::MissingProveFields => "Missing witness_data or max_balance"@,
        Rejection::MissingVerifyFields => "Missing proof_data or public_inputs"@,
        Rejection::UnknownOperation => "Unknown operation: "@ + op,
    }
}

/// `a` is what `decide` owes for `req`.
pub open spec fn decided(req: OperationRequest, a: Action) -> bool {
    match a {
        Action::Generate { witness_data, max_balance } => {
            &&& is_prove(req.operation@)
            &&& req.witness_data == Some(witness_data)
            &&& req.max_balance == Some(max_balance)
        },
        Action::Verify { proof_data, public_inputs } => {
            &&& is_verify(req.operation@)
            &&& req.proof_data == Some(proof_data)
            &&& req.public_inputs == Some(public_inputs)
        },
        Action::Reply(resp) => {
            &&& req.spec_validate() matches Validation::Reject(j)
            &&& resp.wf()
            &&& !resp.success
            &&& resp.error matches Some(e) && e@ == rejection_text(j, req.operation@)
        },
    }
}

/// `r` is what `conclude` owes for `outcome` after `elapsed_ms`.
pub open spec fn concluded(outcome: Outcome, elapsed_ms: u64, r: OperationResponse) -> bool {
    &&& r.wf()
    &&& r.success
    &&& r.error is None
    &&& r.processing_time_ms == Some(elapsed_ms)
    &&& match outcome {
        Outcome::Generated(p) => {
            &&& r.proof == Some(p)
            &&& r.public_signals matches Some(s) && s@.map_values(|t: String| t@) == fixed_signals()
            &&& r.verification_result is None
        },
        Outcome::Verified(b) => {
            &&& r.proof is None
            &&& r.public_signals is None
            &&& r.verification_result == Some(b)
        },
    }
}

/// The error message for a rejection of a request whose operation is `operation`.
pub fn rejection_message(j: Rejection, operation: &str) -> (r: String)
    ensures
        r@ == rejection_text(j, operation@),
{
    match j {
        Rejection::MissingProveFields => String::from_str("Missing witness_data or max_balance"),
        Rejection::MissingVerifyFields => String::from_str("Missing proof_data or public_inputs"),
        Rejection::UnknownOperation => {
            let mut m = String::from_str("Unknown operation: ");
            m.append(operation);
            m
        },
    }
}

/// First step: the generator for a complete `prove`, the verifier for a
/// complete `verify`, and otherwise a failure naming the cause.
pub fn decide(req: OperationRequest) -> (r: Action)
    ensures
        decided(req, r),
{
    match req.validate() {
        Validation::Proceed => {
            if req.is_prove() {
                let OperationRequest { witness_data, max_balance, .. } = req;
                match (witness_data, max_balance) {
                    (Some(witness_data), Some(max_balance)) => Action::Generate {
                        witness_data,
                        max_balance,
                    },
                    _ => {
                        proof {
                            assert(false);
                        }
                        Action::Reply(OperationResponse::failed(String::new()))
                    },
                }
            } else {
                let OperationRequest { proof_data, public_inputs, .. } = req;
                match (proof_data, public_inputs) {
                    (Some(proof_data), Some(public_inputs)) => Action::Verify {
                        proof_data,
                        public_inputs,
                    },
                    _ => {
                        proof {
                            assert(false);
                        }
                        Action::Reply(OperationResponse::failed(String::new()))
                    },
                }
            }
        },
        Validation::Reject(j) => {
            let e = rejection_message(j, req.operation.as_str());
            Action::Reply(OperationResponse::failed(e))
        },
    }
}

/// Second step: the successful response for the work's result, with the time
/// that the work took.
pub fn conclude(outcome: Outcome, elapsed_ms: u64) -> (r: OperationResponse)
    ensures
        concluded(outcome, elapsed_ms, r),
{
    match outcome {
        Outcome::Generated(p) => OperationResponse::proved(p, elapsed_ms),
        Outcome::Verified(b) => OperationResponse::verified(b, elapsed_ms),
    }
}

/// A `prove` request that carries `witness_data` and `max_balance` always
/// succeeds: it goes to the generator with exactly those fields, and the
/// response to the generated text, whatever the clock read, has status 200,
/// carries that text (whose `accounts_verified` is the witness length and
/// whose `max_balance` is the declared bound), the single public signal "1",
/// and the elapsed time.
pub proof fn lemma_prove_succeeds(
    req: OperationRequest,
    action: Action,
    proof_text: String,
    timestamp: Seq<char>,
    elapsed_ms: u64,
    resp: OperationResponse,
)
    requires
        is_prove(req.operation@),
        req.witness_data is Some,
        req.max_balance is Some,
        decided(req, action),
        action matches Action::Generate { witness_data, max_balance } ==> proof_text@
            == generated_text(witness_data@.len() as int, max_balance as int, timestamp),
        concluded(Outcome::Generated(proof_text), elapsed_ms, resp),
    ensures
        req.spec_validate() == Validation::Proceed,
        action matches Action::Generate { witness_data, max_balance } && Some(witness_data)
            == req.witness_data && Some(max_balance) == req.max_balance,
        resp.success,
        resp.spec_status() == 200,
        resp.error is None,
        resp.verification_result is None,
        resp.proof == Some(proof_text),
        proof_text@ == generated_text(
            req.witness_data->0@.len() as int,
            req.max_balance->0 as int,
            timestamp,
        ),
        resp.public_signals matches Some(s) && s@.map_values(|t: String| t@) == seq!["1"@],
        resp.processing_time_ms == Some(elapsed_ms),
{
    reveal_strlit("prove");
    reveal_strlit("verify");
    assert(!is_verify(req.operation@)) by {
        assert("prove"@.len() != "verify"@.len());
    }
    assert(req.spec_validate() == Validation::Proceed);
}

/// A `verify` request that carries `proof_data` and `public_inputs` always
/// succeeds: it goes to the verifier with exactly those fields, and the
/// response, whatever `public_inputs` holds (an empty list too), has status
/// 200 and the verdict `true` exactly when `proof_data` is a well-formed JSON
/// document, `false` otherwise; a false verdict is no failure.
pub proof fn lemma_verify_succeeds(
    req: OperationRequest,
    action: Action,
    verdict: bool,
    elapsed_ms: u64,
    resp: OperationResponse,
)
    requires
        is_verify(req.operation@),
        req.proof_data is Some,
        req.public_inputs is Some,
        decided(req, action),
        action matches Action::Verify { proof_data, .. } ==> verdict == is_json_document(
            proof_data@,
        ),
        concluded(Outcome::Verified(verdict), elapsed_ms, resp),
    ensures
        req.spec_validate() == Validation::Proceed,
        action matches Action::Verify { proof_data, public_inputs } && Some(proof_data)
            == req.proof_data && Some(public_inputs) == req.public_inputs,
        resp.success,
        resp.spec_status() == 200,
        resp.error is None,
        resp.proof is None,
        is_json_document(req.proof_data->0@) ==> resp.verification_result == Some(true),
        !is_json_document(req.proof_data->0@) ==> resp.verification_result == Some(false),
        resp.processing_time_ms == Some(elapsed_ms),
{
    reveal_strlit("prove");
    reveal_strlit("verify");
    assert(!is_prove(req.operation@)) by {
        assert("prove"@.len() != "verify"@.len());
    }
    assert(req.spec_validate() == Validation::Proceed);
}

} // verus!

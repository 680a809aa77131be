//! The operation request and the check that its operation's fields are present.

use vstd::prelude::*;

verus! {

/// One request to the operation endpoint. Which optional fields matter
/// depends on `operation`: `witness_data` and `max_balance` for `prove`,
/// `proof_data` and `public_inputs` for `verify`.
pub struct OperationRequest {
    pub operation: String,
    pub witness_data: Option<Vec<i32>>,
    pub max_balance: Option<i32>,
    pub proof_data: Option<String>,
    pub public_inputs: Option<Vec<String>>,
}

/// Why a request is turned away before any work is done.
#[derive(PartialEq, Eq, Structural, Clone, Copy, Debug)]
pub enum Rejection {
    /// `prove` without `witness_data` or without `max_balance`.
    MissingProveFields,
    /// `verify` without `proof_data` or without `public_inputs`.
    MissingVerifyFields,
    /// An operation other than `prove` and `verify`.
    UnknownOperation,
}

/// The verdict of the field check.
#[derive(PartialEq, Eq, Structural, Clone, Copy, Debug)]
pub enum Validation {
    Proceed,
    Reject(Rejection),
}

pub open spec fn is_prove(op: Seq<char>) -> bool {
    op == "prove"@
}

pub open spec fn is_verify(op: Seq<char>) -> bool {
    op == "verify"@
}

impl OperationRequest {
    /// What the field check decides for this request.
    pub open spec fn spec_validate(&self) -> Validation {
        if is_prove(self.operation@) {
            if self.witness_data is Some && self.max_balance is Some {
                Validation::Proceed
            } else {
                Validation::Reject(Rejection::MissingProveFields)
            }
        } else if is_verify(self.operation@) {
            if self.proof_data is Some && self.public_inputs is Some {
                Validation::Proceed
            } else {
                Validation::Reject(Rejection::MissingVerifyFields)
            }
        } else {
            Validation::Reject(Rejection::UnknownOperation)
        }
    }

    /// Whether the operation is `prove`.
    pub fn is_prove(&self) -> (r: bool)
        ensures
            r == is_prove(self.operation@),
    {
        self.operation == String::from_str("prove")
    }

    /// Whether the operation is `verify`.
    pub fn is_verify(&self) -> (r: bool)
        ensures
            r == is_verify(self.operation@),
    {
        self.operation == String::from_str("verify")
    }

    /// Checks that the fields that the operation needs are present. Presence
    /// is all that is asked: an empty witness passes.
    pub fn validate(&self) -> (r: Validation)
        ensures
            r == self.spec_validate(),
    {
        if self.is_prove() {
            if self.witness_data.is_some() && self.max_balance.is_some() {
                Validation::Proceed
            } else {
                Validation::Reject(Rejection::MissingProveFields)
            }
        } else if self.is_verify() {
            if self.proof_data.is_some() && self.public_inputs.is_some() {
                Validation::Proceed
            } else {
                Validation::Reject(Rejection::MissingVerifyFields)
            }
        } else {
            Validation::Reject(Rejection::UnknownOperation)
        }
    }
}

} // verus!

use spartan_zkp::artifact::{generate_spartan_proof, verify_spartan_proof, ProofArtifact};
use spartan_zkp::dispatch::{conclude, decide, rejection_message, Action, Outcome};
use spartan_zkp::request::{OperationRequest, Rejection, Validation};
use spartan_zkp::response::OperationResponse;

fn request(
    operation: &str,
    witness_data: Option<Vec<i32>>,
    max_balance: Option<i32>,
    proof_data: Option<&str>,
    public_inputs: Option<Vec<String>>,
) -> OperationRequest {
    OperationRequest {
        operation: operation.to_string(),
        witness_data,
        max_balance,
        proof_data: proof_data.map(|p| p.to_string()),
        public_inputs,
    }
}

fn run(req: OperationRequest) -> OperationResponse {
    match decide(req) {
        Action::Generate { witness_data, max_balance } => {
            let proof = generate_spartan_proof(&witness_data, max_balance);
            conclude(Outcome::Generated(proof), 7)
        }
        Action::Verify { proof_data, public_inputs } => {
            let valid = verify_spartan_proof(&proof_data, &public_inputs);
            conclude(Outcome::Verified(valid), 3)
        }
        Action::Reply(resp) => resp,
    }
}

fn placeholder(c: char) -> String {
    format!("0x{}", c.to_string().repeat(64))
}

#[test]
fn prove_request_returns_proof_and_signal() {
    let resp = run(request("prove", Some(vec![100, 200, 300]), Some(1000), None, None));
    assert!(resp.success);
    assert_eq!(resp.status_code(), 200);
    assert_eq!(resp.public_signals, Some(vec!["1".to_string()]));
    assert_eq!(resp.processing_time_ms, Some(7));
    assert_eq!(resp.error, None);
    assert_eq!(resp.verification_result, None);
    let proof: serde_json::Value = serde_json::from_str(resp.proof.as_ref().unwrap()).unwrap();
    assert_eq!(proof["accounts_verified"], 3);
    assert_eq!(proof["max_balance"], 1000);
    assert_eq!(proof["pi_a"], placeholder('a').as_str());
    assert_eq!(proof["pi_b"], placeholder('b').as_str());
    assert_eq!(proof["pi_c"], placeholder('c').as_str());
    assert_eq!(proof["protocol"], "spartan-v1");
    assert!(!proof["timestamp"].as_str().unwrap().is_empty());
}

#[test]
fn prove_accepts_empty_witness_and_negative_bound() {
    let resp = run(request("prove", Some(vec![]), Some(-42), None, None));
    assert!(resp.success);
    let proof: serde_json::Value = serde_json::from_str(resp.proof.as_ref().unwrap()).unwrap();
    assert_eq!(proof["accounts_verified"], 0);
    assert_eq!(proof["max_balance"], -42);
}

#[test]
fn prove_text_has_sorted_keys() {
    let text = generate_spartan_proof(&vec![1, 2], i32::MIN);
    let expected_start = format!(
        "{{\"accounts_verified\":2,\"max_balance\":-2147483648,\"pi_a\":\"{}\",\"pi_b\":\"{}\",\"pi_c\":\"{}\",\"protocol\":\"spartan-v1\",\"timestamp\":\"",
        placeholder('a'),
        placeholder('b'),
        placeholder('c')
    );
    assert!(text.starts_with(&expected_start));
    assert!(text.ends_with("\"}"));
}

#[test]
fn artifact_serializes_exactly() {
    let a = ProofArtifact::new(5, 77, "2024-01-02T03:04:05+00:00".to_string());
    assert_eq!(a.pi_a, placeholder('a'));
    assert_eq!(a.protocol, "spartan-v1");
    let expected = format!(
        "{{\"accounts_verified\":5,\"max_balance\":77,\"pi_a\":\"{}\",\"pi_b\":\"{}\",\"pi_c\":\"{}\",\"protocol\":\"spartan-v1\",\"timestamp\":\"2024-01-02T03:04:05+00:00\"}}",
        placeholder('a'),
        placeholder('b'),
        placeholder('c')
    );
    assert_eq!(a.to_json(), expected);
}

#[test]
fn verify_well_formed_document_is_true() {
    let resp = run(request("verify", None, None, Some("{\"pi_a\":\"0x1\"}"), Some(vec![])));
    assert!(resp.success);
    assert_eq!(resp.status_code(), 200);
    assert_eq!(resp.verification_result, Some(true));
    assert_eq!(resp.processing_time_ms, Some(3));
    assert_eq!(resp.proof, None);
    assert_eq!(resp.public_signals, None);
}

#[test]
fn verify_ignores_public_inputs() {
    let inputs = vec!["anything".to_string(), "else".to_string()];
    let resp = run(request("verify", None, None, Some("[1, 2, 3]"), Some(inputs)));
    assert_eq!(resp.verification_result, Some(true));
}

#[test]
fn verify_generated_proof_is_true() {
    let proof = generate_spartan_proof(&vec![9], 10);
    assert!(verify_spartan_proof(&proof, &vec![]));
}

#[test]
fn verify_malformed_document_is_false_but_succeeds() {
    let resp = run(request("verify", None, None, Some("not-json"), Some(vec!["1".to_string()])));
    assert!(resp.success);
    assert_eq!(resp.status_code(), 200);
    assert_eq!(resp.verification_result, Some(false));
    assert_eq!(resp.error, None);
}

#[test]
fn verify_rejects_trailing_text() {
    assert!(!verify_spartan_proof("{} {}", &vec![]));
    assert!(!verify_spartan_proof("", &vec![]));
}

#[test]
fn prove_missing_max_balance_is_rejected() {
    let resp = run(request("prove", Some(vec![1, 2]), None, None, None));
    assert!(!resp.success);
    assert_eq!(resp.status_code(), 400);
    assert_eq!(resp.error.as_deref(), Some("Missing witness_data or max_balance"));
    assert_eq!(resp.proof, None);
    assert_eq!(resp.public_signals, None);
    assert_eq!(resp.processing_time_ms, None);
}

#[test]
fn prove_missing_witness_is_rejected() {
    let resp = run(request("prove", None, Some(5), None, None));
    assert_eq!(resp.status_code(), 400);
    assert_eq!(resp.error.as_deref(), Some("Missing witness_data or max_balance"));
}

#[test]
fn verify_missing_public_inputs_is_rejected() {
    let resp = run(request("verify", None, None, Some("{}"), None));
    assert!(!resp.success);
    assert_eq!(resp.status_code(), 400);
    assert_eq!(resp.error.as_deref(), Some("Missing proof_data or public_inputs"));
    assert_eq!(resp.verification_result, None);
}

#[test]
fn verify_fields_do_not_serve_prove() {
    let resp = run(request("prove", None, None, Some("{}"), Some(vec![])));
    assert_eq!(resp.error.as_deref(), Some("Missing witness_data or max_balance"));
}

#[test]
fn unknown_operation_is_rejected() {
    let resp = run(request("transmute", Some(vec![1]), Some(1), Some("{}"), Some(vec![])));
    assert!(!resp.success);
    assert_eq!(resp.status_code(), 400);
    assert_eq!(resp.error.as_deref(), Some("Unknown operation: transmute"));
    assert_eq!(resp.processing_time_ms, None);
}

#[test]
fn operation_names_are_case_sensitive() {
    let resp = run(request("Prove", Some(vec![1]), Some(1), None, None));
    assert_eq!(resp.error.as_deref(), Some("Unknown operation: Prove"));
}

#[test]
fn validate_decides_by_presence() {
    let ok = request("prove", Some(vec![]), Some(0), None, None);
    assert_eq!(ok.validate(), Validation::Proceed);
    let missing = request("verify", None, None, None, Some(vec![]));
    assert_eq!(missing.validate(), Validation::Reject(Rejection::MissingVerifyFields));
    let unknown = request("", None, None, None, None);
    assert_eq!(unknown.validate(), Validation::Reject(Rejection::UnknownOperation));
    assert!(ok.is_prove());
    assert!(!ok.is_verify());
}

#[test]
fn rejection_messages() {
    assert_eq!(
        rejection_message(Rejection::MissingProveFields, "prove"),
        "Missing witness_data or max_balance"
    );
    assert_eq!(
        rejection_message(Rejection::MissingVerifyFields, "verify"),
        "Missing proof_data or public_inputs"
    );
    assert_eq!(rejection_message(Rejection::UnknownOperation, ""), "Unknown operation: ");
}

//! The proof artifact: its placeholder content, its JSON form, and the
//! placeholder generator and verifier.

use vstd::prelude::*;
use crate::json::{
    decimal, decimal_string, is_json_document, member, object, parses_as_json, quote, quoted,
    ObjectWriter,
};

verus! {

/// `0x` followed by 64 copies of `c`.
pub open spec fn placeholder(c: char) -> Seq<char> {
    seq!['0', 'x'] + Seq::new(64, |i: int| c)
}

/// The protocol tag that every artifact carries.
pub open spec fn protocol_tag() -> Seq<char> {
    "spartan-v1"@
}

/// The artifact that generation produces. It is built once and never changed.
pub struct ProofArtifact {
    pub pi_a: String,
    pub pi_b: String,
    pub pi_c: String,
    pub protocol: String,
    pub accounts_verified: usize,
    pub max_balance: i32,
    pub timestamp: String,
}

impl ProofArtifact {
    /// The fixed parts hold their placeholder values.
    pub open spec fn wf(&self) -> bool {
        &&& self.pi_a@ == placeholder('a')
        &&& self.pi_b@ == placeholder('b')
        &&& self.pi_c@ == placeholder('c')
        &&& self.protocol@ == protocol_tag()
    }

    /// The members of the JSON form, keys in sorted order.
    pub open spec fn members(&self) -> Seq<Seq<char>> {
        seq![
            member("accounts_verified"@, decimal(self.accounts_verified as int)),
            member("max_balance"@, decimal(self.max_balance as int)),
            member("pi_a"@, quoted(self.pi_a@)),
            member("pi_b"@, quoted(self.pi_b@)),
            member("pi_c"@, quoted(self.pi_c@)),
            member("protocol"@, quoted(self.protocol@)),
            member("timestamp"@, quoted(self.timestamp@)),
        ]
    }

    /// The JSON form of the artifact.
    pub open spec fn json_text(&self) -> Seq<char> {
        object(self.members())
    }

    /// The artifact for a witness of `accounts_verified` entries, generated at
    /// `timestamp`.
    pub fn new(accounts_verified: usize, max_balance: i32, timestamp: String) -> (r: ProofArtifact)
        ensures
            r.wf(),
            r.accounts_verified == accounts_verified,
            r.max_balance == max_balance,
            r.timestamp@ == timestamp@,
    {
        let pi_a = String::from_str("0xaaaaaaaaaaaaaaaaaaaaaaaaaaaaaaaaaaaaaaaaaaaaaaaaaaaaaaaaaaaaaaaa");
        let pi_b = String::from_str("0xbbbbbbbbbbbbbbbbbbbbbbbbbbbbbbbbbbbbbbbbbbbbbbbbbbbbbbbbbbbbbbbb");
        let pi_c = String::from_str("0xcccccccccccccccccccccccccccccccccccccccccccccccccccccccccccccccc");
        let protocol = String::from_str("spartan-v1");
        proof {
            reveal_strlit("0xaaaaaaaaaaaaaaaaaaaaaaaaaaaaaaaaaaaaaaaaaaaaaaaaaaaaaaaaaaaaaaaa");
            reveal_strlit("0xbbbbbbbbbbbbbbbbbbbbbbbbbbbbbbbbbbbbbbbbbbbbbbbbbbbbbbbbbbbbbbbb");
            reveal_strlit("0xcccccccccccccccccccccccccccccccccccccccccccccccccccccccccccccccc");
            assert(pi_a@ =~= placeholder('a'));
            assert(pi_b@ =~= placeholder('b'));
            assert(pi_c@ =~= placeholder('c'));
        }
        ProofArtifact {
            pi_a,
            pi_b,
            pi_c,
            protocol,
            accounts_verified,
            max_balance,
            timestamp,
        }
    }

    /// Serializes the artifact to its transport string.
    pub fn to_json(&self) -> (r: String)
        ensures
            r@ == self.json_text(),
    {
        let mut w = ObjectWriter::new();
        let n = decimal_string(self.accounts_verified as i128);
        w.member("accounts_verified", n.as_str());
        let m = decimal_string(self.max_balance as i128);
        w.member("max_balance", m.as_str());
        let a = quote(self.pi_a.as_str());
        w.member("pi_a", a.as_str());
        let b = quote(self.pi_b.as_str());
        w.member("pi_b", b.as_str());
        let c = quote(self.pi_c.as_str());
        w.member("pi_c", c.as_str());
        let p = quote(self.protocol.as_str());
        w.member("protocol", p.as_str());
        let t = quote(self.timestamp.as_str());
        w.member("timestamp", t.as_str());
        proof {
            assert(w.members() =~= self.members());
        }
        w.finish()
    }
}

/// Relies on `chrono::Utc::now` and `DateTime::to_rfc3339`: the current time
/// as RFC 3339 text. Nothing is promised of the value.
#[verifier::external_body]
fn now_rfc3339() -> (r: String) {
    chrono::Utc::now().to_rfc3339()
}

/// The text that generation returns for a witness of `accounts` entries and the
/// declared bound `max_balance`, when the clock read `timestamp`.
pub open spec fn generated_text(accounts: int, max_balance: int, timestamp: Seq<char>) -> Seq<char> {
    object(seq![
        member("accounts_verified"@, decimal(accounts)),
        member("max_balance"@, decimal(max_balance)),
        member("pi_a"@, quoted(placeholder('a'))),
        member("pi_b"@, quoted(placeholder('b'))),
        member("pi_c"@, quoted(placeholder('c'))),
        member("protocol"@, quoted(protocol_tag())),
        member("timestamp"@, quoted(timestamp)),
    ])
}

/// Generates the placeholder proof for `witness_data` and `max_balance`:
/// it never fails, for an empty witness or a negative bound as well; only the
/// timestamp depends on the clock.
pub fn generate_spartan_proof(witness_data: &Vec<i32>, max_balance: i32) -> (r: String)
    ensures
        exists|timestamp: Seq<char>|
            r@ == generated_text(witness_data@.len() as int, max_balance as int, timestamp),
{
    let timestamp = now_rfc3339();
    let artifact = ProofArtifact::new(witness_data.len(), max_balance, timestamp);
    let r = artifact.to_json();
    proof {
        assert(artifact.members() =~= seq![
            member("accounts_verified"@, decimal(witness_data@.len() as int)),
            member("max_balance"@, decimal(max_balance as int)),
            member("pi_a"@, quoted(placeholder('a'))),
            member("pi_b"@, quoted(placeholder('b'))),
            member("pi_c"@, quoted(placeholder('c'))),
            member("protocol"@, quoted(protocol_tag())),
            member("timestamp"@, quoted(artifact.timestamp@)),
        ]);
        assert(r@ == generated_text(
            witness_data@.len() as int,
            max_balance as int,
            artifact.timestamp@,
        ));
    }
    r
}

/// The placeholder verifier: accepts exactly the well-formed JSON documents.
/// `public_inputs` is accepted and not consulted.
pub fn verify_spartan_proof(proof_data: &str, public_inputs: &Vec<String>) -> (r: bool)
    ensures
        r == is_json_document(proof_data@),
{
    parses_as_json(proof_data)
}

} // verus!

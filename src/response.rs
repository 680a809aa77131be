//! The response envelope of an operation, its status and its JSON form.

use vstd::prelude::*;
use crate::json::{
    bool_text, decimal, decimal_string, digits, is_digit, joined, lemma_cancel, lemma_digits_prefix,
    lemma_joined_front,
    lemma_digits_shape, lemma_quoted_prefix, lemma_string_array_prefix, member, null_text, object,
    quote, quoted, string_array, write_string_array, ObjectWriter,
};

verus! {

/// The outcome of one request to the operation endpoint.
pub struct OperationResponse {
    pub success: bool,
    pub proof: Option<String>,
    pub public_signals: Option<Vec<String>>,
    pub verification_result: Option<bool>,
    pub error: Option<String>,
    pub processing_time_ms: Option<u64>,
}

/// The public signals of every successful proof: the single signal `"1"`.
pub open spec fn fixed_signals() -> Seq<Seq<char>> {
    seq!["1"@]
}

/// HTTP status OK.
pub const STATUS_OK: u16 = 200;

/// HTTP status Bad Request.
pub const STATUS_BAD_REQUEST: u16 = 400;

/// JSON text of an optional string.
pub open spec fn opt_string_text(v: Option<String>) -> Seq<char> {
    match v {
        Some(s) => quoted(s@),
        None => null_text(),
    }
}

/// JSON text of an optional list of strings.
pub open spec fn opt_array_text(v: Option<Vec<String>>) -> Seq<char> {
    match v {
        Some(items) => string_array(items@.map_values(|t: String| t@)),
        None => null_text(),
    }
}

/// JSON text of an optional boolean.
pub open spec fn opt_bool_text(v: Option<bool>) -> Seq<char> {
    match v {
        Some(b) => bool_text(b),
        None => null_text(),
    }
}

/// JSON text of an optional count of milliseconds.
pub open spec fn opt_millis_text(v: Option<u64>) -> Seq<char> {
    match v {
        Some(n) => decimal(n as int),
        None => null_text(),
    }
}

impl OperationResponse {
    /// The envelope's invariant: a success carries no error and a failure
    /// carries nothing but its error; at most one operation's results are set,
    /// and every success has its processing time.
    pub open spec fn wf(&self) -> bool {
        &&& self.success <==> self.error is None
        &&& !self.success ==> {
            &&& self.proof is None
            &&& self.public_signals is None
            &&& self.verification_result is None
            &&& self.processing_time_ms is None
        }
        &&& self.success ==> self.processing_time_ms is Some
        &&& self.proof is Some <==> self.public_signals is Some
        &&& !(self.proof is Some && self.verification_result is Some)
    }

    /// The members of the JSON form, in declaration order; absent values are `null`.
    pub open spec fn members(&self) -> Seq<Seq<char>> {
        seq![
            member("success"@, bool_text(self.success)),
            member("proof"@, opt_string_text(self.proof)),
            member("public_signals"@, opt_array_text(self.public_signals)),
            member("verification_result"@, opt_bool_text(self.verification_result)),
            member("error"@, opt_string_text(self.error)),
            member("processing_time_ms"@, opt_millis_text(self.processing_time_ms)),
        ]
    }

    /// The JSON form of the response.
    pub open spec fn json_text(&self) -> Seq<char> {
        object(self.members())
    }

    /// The HTTP status that goes with the response.
    pub open spec fn spec_status(&self) -> u16 {
        if self.success {
            STATUS_OK
        } else {
            STATUS_BAD_REQUEST
        }
    }

    /// A successful proof: `proof` with the fixed public signals.
    pub fn proved(proof: String, elapsed_ms: u64) -> (r: OperationResponse)
        ensures
            r.wf(),
            r.success,
            r.proof == Some(proof),
            r.public_signals matches Some(s) && s@.map_values(|t: String| t@) == fixed_signals(),
            r.verification_result is None,
            r.error is None,
            r.processing_time_ms == Some(elapsed_ms),
    {
        let mut signals: Vec<String> = Vec::new();
        signals.push(String::from_str("1"));
        proof {
            assert(signals@.map_values(|t: String| t@) =~= fixed_signals());
        }
        OperationResponse {
            success: true,
            proof: Some(proof),
            public_signals: Some(signals),
            verification_result: None,
            error: None,
            processing_time_ms: Some(elapsed_ms),
        }
    }

    /// A completed verification with its verdict; a false verdict is still a success.
    pub fn verified(valid: bool, elapsed_ms: u64) -> (r: OperationResponse)
        ensures
            r.wf(),
            r.success,
            r.proof is None,
            r.public_signals is None,
            r.verification_result == Some(valid),
            r.error is None,
            r.processing_time_ms == Some(elapsed_ms),
    {
        OperationResponse {
            success: true,
            proof: None,
            public_signals: None,
            verification_result: Some(valid),
            error: None,
            processing_time_ms: Some(elapsed_ms),
        }
    }

    /// A failure with its message and nothing else.
    pub fn failed(error: String) -> (r: OperationResponse)
        ensures
            r.wf(),
            !r.success,
            r.error == Some(error),
            r.proof is None,
            r.public_signals is None,
            r.verification_result is None,
            r.processing_time_ms is None,
    {
        OperationResponse {
            success: false,
            proof: None,
            public_signals: None,
            verification_result: None,
            error: Some(error),
            processing_time_ms: None,
        }
    }

    /// 200 for a success, 400 for a failure.
    pub fn status_code(&self) -> (r: u16)
        ensures
            r == self.spec_status(),
    {
        if self.success {
            STATUS_OK
        } else {
            STATUS_BAD_REQUEST
        }
    }

    /// Serializes the response, absent values as `null`.
    pub fn to_json(&self) -> (r: String)
        ensures
            r@ == self.json_text(),
    {
        let mut w = ObjectWriter::new();
        let s = if self.success {
            String::from_str("true")
        } else {
            String::from_str("false")
        };
        proof {
            reveal_strlit("true");
            reveal_strlit("false");
            assert(s@ =~= bool_text(self.success));
        }
        w.member("success", s.as_str());
        let p = optional_string(&self.proof);
        w.member("proof", p.as_str());
        let ps = match &self.public_signals {
            Some(items) => write_string_array(items),
            None => null(),
        };
        w.member("public_signals", ps.as_str());
        let v = match self.verification_result {
            Some(b) => {
                let t = if b {
                    String::from_str("true")
                } else {
                    String::from_str("false")
                };
                proof {
                    assert(t@ =~= bool_text(b));
                }
                t
            },
            None => null(),
        };
        w.member("verification_result", v.as_str());
        let e = optional_string(&self.error);
        w.member("error", e.as_str());
        let t = match self.processing_time_ms {
            Some(n) => decimal_string(n as i128),
            None => null(),
        };
        w.member("processing_time_ms", t.as_str());
        proof {
            assert(w.members() =~= self.members());
        }
        w.finish()
    }
}

fn null() -> (r: String)
    ensures
        r@ == null_text(),
{
    let r = String::from_str("null");
    proof {
        reveal_strlit("null");
        assert(r@ =~= null_text());
    }
    r
}

fn optional_string(v: &Option<String>) -> (r: String)
    ensures
        r@ == opt_string_text(*v),
{
    match v {
        Some(s) => quote(s.as_str()),
        None => null(),
    }
}

/// The view of an optional string.
pub open spec fn opt_string_view(v: Option<String>) -> Option<Seq<char>> {
    match v {
        Some(s) => Some(s@),
        None => None,
    }
}

/// The view of an optional list of strings.
pub open spec fn opt_array_view(v: Option<Vec<String>>) -> Option<Seq<Seq<char>>> {
    match v {
        Some(items) => Some(items@.map_values(|t: String| t@)),
        None => None,
    }
}

proof fn lemma_bool_prefix(a: bool, b: bool, r1: Seq<char>, r2: Seq<char>)
    requires
        bool_text(a) + r1 == bool_text(b) + r2,
    ensures
        a == b,
        r1 == r2,
{
    assert((bool_text(a) + r1)[0] == bool_text(a)[0]);
    assert((bool_text(b) + r2)[0] == bool_text(b)[0]);
    lemma_cancel(bool_text(a), r1, r2);
}

proof fn lemma_opt_string_prefix(a: Option<String>, b: Option<String>, r1: Seq<char>, r2: Seq<char>)
    requires
        opt_string_text(a) + r1 == opt_string_text(b) + r2,
    ensures
        opt_string_view(a) == opt_string_view(b),
        r1 == r2,
{
    let ta = opt_string_text(a);
    let tb = opt_string_text(b);
    assert((ta + r1)[0] == ta[0]);
    assert((tb + r2)[0] == tb[0]);
    match (a, b) {
        (Some(x), Some(y)) => {
            lemma_quoted_prefix(x@, y@, r1, r2);
        },
        (None, None) => {
            lemma_cancel(null_text(), r1, r2);
        },
        _ => {
            assert(ta[0] != tb[0]);
        },
    }
}

proof fn lemma_opt_array_prefix(
    a: Option<Vec<String>>,
    b: Option<Vec<String>>,
    r1: Seq<char>,
    r2: Seq<char>,
)
    requires
        opt_array_text(a) + r1 == opt_array_text(b) + r2,
    ensures
        opt_array_view(a) == opt_array_view(b),
        r1 == r2,
{
    let ta = opt_array_text(a);
    let tb = opt_array_text(b);
    assert((ta + r1)[0] == ta[0]);
    assert((tb + r2)[0] == tb[0]);
    match (a, b) {
        (Some(x), Some(y)) => {
            lemma_string_array_prefix(
                x@.map_values(|t: String| t@),
                y@.map_values(|t: String| t@),
                r1,
                r2,
            );
        },
        (None, None) => {
            lemma_cancel(null_text(), r1, r2);
        },
        _ => {
            assert(ta[0] != tb[0]);
        },
    }
}

proof fn lemma_opt_bool_prefix(a: Option<bool>, b: Option<bool>, r1: Seq<char>, r2: Seq<char>)
    requires
        opt_bool_text(a) + r1 == opt_bool_text(b) + r2,
    ensures
        a == b,
        r1 == r2,
{
    let ta = opt_bool_text(a);
    let tb = opt_bool_text(b);
    assert((ta + r1)[0] == ta[0]);
    assert((tb + r2)[0] == tb[0]);
    if ta[0] == tb[0] {
        lemma_cancel(ta, r1, r2);
    }
}

proof fn lemma_opt_millis_prefix(a: Option<u64>, b: Option<u64>, r1: Seq<char>, r2: Seq<char>)
    requires
        opt_millis_text(a) + r1 == opt_millis_text(b) + r2,
        r1.len() >= 1 && !is_digit(r1[0]),
        r2.len() >= 1 && !is_digit(r2[0]),
    ensures
        a == b,
        r1 == r2,
{
    let ta = opt_millis_text(a);
    let tb = opt_millis_text(b);
    match a {
        Some(n) => {
            lemma_digits_shape(n as nat);
            assert(ta == digits(n as nat));
            assert(is_digit(ta[0]));
        },
        None => {},
    }
    match b {
        Some(n) => {
            lemma_digits_shape(n as nat);
            assert(tb == digits(n as nat));
            assert(is_digit(tb[0]));
        },
        None => {},
    }
    assert((ta + r1)[0] == ta[0]);
    assert((tb + r2)[0] == tb[0]);
    match (a, b) {
        (Some(x), Some(y)) => {
            lemma_digits_prefix(x as nat, y as nat, r1, r2);
        },
        (None, None) => {
            lemma_cancel(null_text(), r1, r2);
        },
        _ => {
            assert(ta[0] != tb[0]);
        },
    }
}

/// One member followed by a delimiter and the rest of the text, regrouped so
/// that the member's value comes to the front after its key.
proof fn lemma_regroup(key: Seq<char>, v: Seq<char>, rest: Seq<char>)
    ensures
        member(key, v) + rest == quoted(key) + (seq![':'] + (v + rest)),
{
    assert(member(key, v) + rest =~= quoted(key) + (seq![':'] + (v + rest)));
}

/// Peels one member off two texts with the same key, leaving the values and
/// what follows them.
proof fn lemma_peel(key: Seq<char>, va: Seq<char>, vb: Seq<char>, ra: Seq<char>, rb: Seq<char>)
    requires
        member(key, va) + ra == member(key, vb) + rb,
    ensures
        va + ra == vb + rb,
{
    lemma_regroup(key, va, ra);
    lemma_regroup(key, vb, rb);
    lemma_cancel(quoted(key), seq![':'] + (va + ra), seq![':'] + (vb + rb));
    lemma_cancel(seq![':'], va + ra, vb + rb);
}

/// The members from the `k`-th on, joined and closed: the `k`-th member,
/// then (if more follow) a comma and the rest.
proof fn lemma_tail(m: Seq<Seq<char>>, k: int)
    requires
        m.len() == 6,
        0 <= k < 5,
    ensures
        joined(m.subrange(k, 6)) + seq!['}'] == m[k] + (seq![','] + (joined(m.subrange(k + 1, 6))
            + seq!['}'])),
{
    let t = m.subrange(k, 6);
    lemma_joined_front(t);
    assert(t.drop_first() =~= m.subrange(k + 1, 6));
    let j = joined(m.subrange(k + 1, 6));
    assert((m[k] + seq![','] + j) + seq!['}'] =~= m[k] + (seq![','] + (j + seq!['}'])));
}

/// Serializing loses no field: two responses with the same JSON text agree on
/// every field, so the text parses back to the response it was written from.
pub proof fn lemma_json_text_determines_response(a: OperationResponse, b: OperationResponse)
    requires
        a.json_text() == b.json_text(),
    ensures
        a.success == b.success,
        opt_string_view(a.proof) == opt_string_view(b.proof),
        opt_array_view(a.public_signals) == opt_array_view(b.public_signals),
        a.verification_result == b.verification_result,
        opt_string_view(a.error) == opt_string_view(b.error),
        a.processing_time_ms == b.processing_time_ms,
{
    let ma = a.members();
    let mb = b.members();
    let c = seq![','];
    let e = seq!['}'];
    let ra = |k: int| joined(ma.subrange(k, 6)) + e;
    let rb = |k: int| joined(mb.subrange(k, 6)) + e;
    assert(ma.subrange(0, 6) =~= ma);
    assert(mb.subrange(0, 6) =~= mb);
    assert(a.json_text() =~= seq!['{'] + ra(0));
    assert(b.json_text() =~= seq!['{'] + rb(0));
    lemma_cancel(seq!['{'], ra(0), rb(0));
    lemma_tail(ma, 0);
    lemma_tail(mb, 0);
    lemma_peel("success"@, bool_text(a.success), bool_text(b.success), c + ra(1), c + rb(1));
    lemma_bool_prefix(a.success, b.success, c + ra(1), c + rb(1));
    lemma_cancel(c, ra(1), rb(1));
    lemma_tail(ma, 1);
    lemma_tail(mb, 1);
    lemma_peel(
        "proof"@,
        opt_string_text(a.proof),
        opt_string_text(b.proof),
        c + ra(2),
        c + rb(2),
    );
    lemma_opt_string_prefix(a.proof, b.proof, c + ra(2), c + rb(2));
    lemma_cancel(c, ra(2), rb(2));
    lemma_tail(ma, 2);
    lemma_tail(mb, 2);
    lemma_peel(
        "public_signals"@,
        opt_array_text(a.public_signals),
        opt_array_text(b.public_signals),
        c + ra(3),
        c + rb(3),
    );
    lemma_opt_array_prefix(a.public_signals, b.public_signals, c + ra(3), c + rb(3));
    lemma_cancel(c, ra(3), rb(3));
    lemma_tail(ma, 3);
    lemma_tail(mb, 3);
    lemma_peel(
        "verification_result"@,
        opt_bool_text(a.verification_result),
        opt_bool_text(b.verification_result),
        c + ra(4),
        c + rb(4),
    );
    lemma_opt_bool_prefix(a.verification_result, b.verification_result, c + ra(4), c + rb(4));
    lemma_cancel(c, ra(4), rb(4));
    lemma_tail(ma, 4);
    lemma_tail(mb, 4);
    lemma_peel(
        "error"@,
        opt_string_text(a.error),
        opt_string_text(b.error),
        c + ra(5),
        c + rb(5),
    );
    lemma_opt_string_prefix(a.error, b.error, c + ra(5), c + rb(5));
    lemma_cancel(c, ra(5), rb(5));
    assert(ma.subrange(5, 6) =~= seq![ma[5]]);
    assert(mb.subrange(5, 6) =~= seq![mb[5]]);
    assert(joined(ma.subrange(5, 6)) == ma[5]);
    assert(joined(mb.subrange(5, 6)) == mb[5]);
    lemma_peel(
        "processing_time_ms"@,
        opt_millis_text(a.processing_time_ms),
        opt_millis_text(b.processing_time_ms),
        e,
        e,
    );
    assert(e[0] == '}');
    lemma_opt_millis_prefix(a.processing_time_ms, b.processing_time_ms, e, e);
}

} // verus!

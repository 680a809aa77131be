//! JSON text pieces: string literals, integers, and the well-formedness test.

use vstd::prelude::*;

verus! {

/// The two-character escape `\x` for the character `x`.
pub open spec fn backslash(x: char) -> Seq<char> {
    seq!['\\', x]
}

/// Lower-case hexadecimal digit of `d` (0 to 15).
pub open spec fn hex_digit(d: int) -> char {
    if d < 10 {
        (('0' as int) + d) as char
    } else {
        (('a' as int) + d - 10) as char
    }
}

/// How one character of a string value is written inside a JSON string literal.
pub open spec fn escape_char(c: char) -> Seq<char> {
    if c == '"' {
        backslash('"')
    } else if c == '\\' {
        backslash('\\')
    } else if c == '\x08' {
        backslash('b')
    } else if c == '\t' {
        backslash('t')
    } else if c == '\n' {
        backslash('n')
    } else if c == '\x0C' {
        backslash('f')
    } else if c == '\r' {
        backslash('r')
    } else if (c as int) < 0x20 {
        seq!['\\', 'u', '0', '0', hex_digit((c as int) / 16), hex_digit((c as int) % 16)]
    } else {
        seq![c]
    }
}

/// The body of a JSON string literal for `s`, without the surrounding quotes.
pub open spec fn escaped(s: Seq<char>) -> Seq<char>
    decreases s.len(),
{
    if s.len() == 0 {
        Seq::empty()
    } else {
        escape_char(s[0]) + escaped(s.drop_first())
    }
}

/// The JSON string literal for `s`.
pub open spec fn quoted(s: Seq<char>) -> Seq<char> {
    seq!['"'] + escaped(s) + seq!['"']
}

/// Decimal digits of a natural number, most significant first.
pub open spec fn digits(n: nat) -> Seq<char>
    decreases n,
{
    if n < 10 {
        seq![hex_digit(n as int)]
    } else {
        digits(n / 10) + seq![hex_digit((n % 10) as int)]
    }
}

/// Decimal text of an integer, with a leading `-` when it is negative.
pub open spec fn decimal(n: int) -> Seq<char> {
    if n < 0 {
        seq!['-'] + digits((-n) as nat)
    } else {
        digits(n as nat)
    }
}

/// Whether `s` is one complete, syntactically well-formed JSON document.
pub uninterp spec fn is_json_document(s: Seq<char>) -> bool;

/// Relies on `serde_json::to_string` on a `str`: it writes the string as a
/// JSON literal in quotes, escaping `"`, `\` and the control characters below
/// U+0020 (short forms where JSON has one, else `\u00xx` in lower-case hex),
/// and it cannot fail on a `str`.
#[verifier::external_body]
pub(crate) fn quote(s: &str) -> (r: String)
    ensures
        r@ == quoted(s@),
{
    serde_json::to_string(s).unwrap_or_default()
}

/// Relies on `ToString` for `i128` (its `Display`): the decimal digits,
/// preceded by `-` for a negative value.
#[verifier::external_body]
pub(crate) fn decimal_string(n: i128) -> (r: String)
    ensures
        r@ == decimal(n as int),
{
    n.to_string()
}

/// Relies on `serde_json::from_str::<serde_json::Value>`: it succeeds exactly
/// on a well-formed JSON document, and the answer depends on the text alone.
#[verifier::external_body]
pub(crate) fn parses_as_json(s: &str) -> (r: bool)
    ensures
        r == is_json_document(s@),
{
    serde_json::from_str::<serde_json::Value>(s).is_ok()
}


/// The items of `items` separated by commas.
pub open spec fn joined(items: Seq<Seq<char>>) -> Seq<char>
    decreases items.len(),
{
    if items.len() == 0 {
        Seq::empty()
    } else if items.len() == 1 {
        items[0]
    } else {
        joined(items.drop_last()) + seq![','] + items.last()
    }
}

/// One `"key":value` member of an object, `value` being JSON text already.
pub open spec fn member(key: Seq<char>, value: Seq<char>) -> Seq<char> {
    quoted(key) + seq![':'] + value
}

/// A JSON object holding the given members in this order.
pub open spec fn object(members: Seq<Seq<char>>) -> Seq<char> {
    seq!['{'] + joined(members) + seq!['}']
}

/// A JSON array of string literals.
pub open spec fn string_array(items: Seq<Seq<char>>) -> Seq<char> {
    seq!['['] + joined(items.map_values(|t: Seq<char>| quoted(t))) + seq![']']
}

/// The JSON `null`.
pub open spec fn null_text() -> Seq<char> {
    seq!['n', 'u', 'l', 'l']
}

/// The JSON booleans.
pub open spec fn bool_text(b: bool) -> Seq<char> {
    if b {
        seq!['t', 'r', 'u', 'e']
    } else {
        seq!['f', 'a', 'l', 's', 'e']
    }
}

/// Writes a JSON object member by member.
pub struct ObjectWriter {
    text: String,
    empty: bool,
    members: Ghost<Seq<Seq<char>>>,
}

impl ObjectWriter {
    /// The members written so far.
    pub closed spec fn members(&self) -> Seq<Seq<char>> {
        self.members@
    }

    pub closed spec fn wf(&self) -> bool {
        &&& self.text@ == seq!['{'] + joined(self.members@)
        &&& self.empty == (self.members@.len() == 0)
    }

    pub fn new() -> (r: ObjectWriter)
        ensures
            r.wf(),
            r.members() == Seq::<Seq<char>>::empty(),
    {
        let text = String::from_str("{");
        proof {
            reveal_strlit("{");
            assert(text@ =~= seq!['{'] + joined(Seq::<Seq<char>>::empty()));
        }
        ObjectWriter { text, empty: true, members: Ghost(Seq::empty()) }
    }

    /// Appends the member `"key":value`; `value` is JSON text already.
    pub fn member(&mut self, key: &str, value: &str)
        requires
            old(self).wf(),
        ensures
            final(self).wf(),
            final(self).members() == old(self).members().push(member(key@, value@)),
    {
        let ghost before = self.members@;
        let ghost m = member(key@, value@);
        if !self.empty {
            self.text.append(",");
        }
        self.empty = false;
        let k = quote(key);
        self.text.append(k.as_str());
        self.text.append(":");
        self.text.append(value);
        proof {
            reveal_strlit(",");
            reveal_strlit(":");
            let after = before.push(m);
            assert(after.drop_last() =~= before);
            if before.len() > 0 {
                assert(joined(after) == joined(before) + seq![','] + m);
            } else {
                assert(joined(after) == m);
            }
            self.members = Ghost(after);
            assert(self.text@ =~= seq!['{'] + joined(after));
        }
    }

    /// The finished object.
    pub fn finish(self) -> (r: String)
        requires
            self.wf(),
        ensures
            r@ == object(self.members()),
    {
        let mut text = self.text;
        text.append("}");
        proof {
            reveal_strlit("}");
            assert(text@ =~= object(self.members@));
        }
        text
    }
}

/// Writes the strings of `items` as a JSON array of string literals.
pub fn write_string_array(items: &Vec<String>) -> (r: String)
    ensures
        r@ == string_array(items@.map_values(|t: String| t@)),
{
    let ghost views = items@.map_values(|t: String| t@);
    let ghost lits = views.map_values(|t: Seq<char>| quoted(t));
    let mut text = String::from_str("[");
    proof { reveal_strlit("["); }
    let mut i: usize = 0;
    while i < items.len()
        invariant
            i <= items.len(),
            views == items@.map_values(|t: String| t@),
            lits == views.map_values(|t: Seq<char>| quoted(t)),
            text@ == seq!['['] + joined(lits.subrange(0, i as int)),
        decreases items.len() - i,
    {
        let ghost before = lits.subrange(0, i as int);
        let ghost after = lits.subrange(0, i as int + 1);
        if i > 0 {
            text.append(",");
        }
        let q = quote(items[i].as_str());
        text.append(q.as_str());
        proof {
            reveal_strlit(",");
            assert(after.drop_last() =~= before);
            assert(after.last() == lits[i as int]);
            if i > 0 {
                assert(joined(after) == joined(before) + seq![','] + after.last());
            } else {
                assert(joined(after) == after.last());
            }
            assert(text@ =~= seq!['['] + joined(after));
        }
        i = i + 1;
    }
    text.append("]");
    proof {
        reveal_strlit("]");
        assert(lits.subrange(0, items.len() as int) =~= lits);
        assert(text@ =~= string_array(views));
    }
    text
}

/// A decimal digit.
pub open spec fn is_digit(c: char) -> bool {
    '0' <= c <= '9'
}

/// What follows one value with a common prefix is the rest after that prefix.
pub proof fn lemma_cancel(p: Seq<char>, x: Seq<char>, y: Seq<char>)
    requires
        p + x == p + y,
    ensures
        x == y,
{
    assert(x =~= (p + x).subrange(p.len() as int, (p + x).len() as int));
    assert(y =~= (p + y).subrange(p.len() as int, (p + y).len() as int));
}

/// An escaped character is never empty and never starts with a quote.
pub proof fn lemma_escape_char_head(c: char)
    ensures
        escape_char(c).len() >= 1,
        escape_char(c)[0] != '"',
{
}

/// The escape of a character is read back unambiguously.
pub proof fn lemma_escape_char_prefix(c1: char, c2: char, x: Seq<char>, y: Seq<char>)
    requires
        escape_char(c1) + x == escape_char(c2) + y,
    ensures
        c1 == c2,
        x == y,
{
    let e1 = escape_char(c1);
    let e2 = escape_char(c2);
    let t = e1 + x;
    assert(t[0] == e1[0]);
    assert(t[0] == e2[0]);
    if e1.len() >= 2 && e2.len() >= 2 {
        assert(t[1] == e1[1]);
        assert(t[1] == e2[1]);
        if e1.len() == 6 && e2.len() == 6 {
            assert(t[4] == e1[4] && t[4] == e2[4]);
            assert(t[5] == e1[5] && t[5] == e2[5]);
        }
    }
    assert(c1 == c2);
    lemma_cancel(e1, x, y);
}

/// The body of a string literal ends at its first unescaped quote, so the
/// literal is read back unambiguously.
pub proof fn lemma_escaped_prefix(s1: Seq<char>, s2: Seq<char>, r1: Seq<char>, r2: Seq<char>)
    requires
        escaped(s1) + (seq!['"'] + r1) == escaped(s2) + (seq!['"'] + r2),
    ensures
        s1 == s2,
        r1 == r2,
    decreases s1.len(),
{
    let t = escaped(s1) + (seq!['"'] + r1);
    if s1.len() == 0 || s2.len() == 0 {
        if s1.len() > 0 {
            lemma_escape_char_head(s1[0]);
            assert(t[0] == escape_char(s1[0])[0]);
            assert(t[0] == '"');
        } else if s2.len() > 0 {
            lemma_escape_char_head(s2[0]);
            assert(t[0] == escape_char(s2[0])[0]);
            assert(t[0] == '"');
        } else {
            assert(escaped(s1) + (seq!['"'] + r1) =~= seq!['"'] + r1);
            assert(escaped(s2) + (seq!['"'] + r2) =~= seq!['"'] + r2);
            lemma_cancel(seq!['"'], r1, r2);
            assert(s1 =~= s2);
        }
    } else {
        let x1 = escaped(s1.drop_first()) + (seq!['"'] + r1);
        let x2 = escaped(s2.drop_first()) + (seq!['"'] + r2);
        assert(t =~= escape_char(s1[0]) + x1);
        assert(escaped(s2) + (seq!['"'] + r2) =~= escape_char(s2[0]) + x2);
        lemma_escape_char_prefix(s1[0], s2[0], x1, x2);
        lemma_escaped_prefix(s1.drop_first(), s2.drop_first(), r1, r2);
        assert(s1 =~= seq![s1[0]] + s1.drop_first());
        assert(s2 =~= seq![s2[0]] + s2.drop_first());
    }
}

/// A string literal is read back unambiguously from the front of a text.
pub proof fn lemma_quoted_prefix(s1: Seq<char>, s2: Seq<char>, r1: Seq<char>, r2: Seq<char>)
    requires
        quoted(s1) + r1 == quoted(s2) + r2,
    ensures
        s1 == s2,
        r1 == r2,
{
    assert(quoted(s1) + r1 =~= seq!['"'] + (escaped(s1) + (seq!['"'] + r1)));
    assert(quoted(s2) + r2 =~= seq!['"'] + (escaped(s2) + (seq!['"'] + r2)));
    lemma_cancel(seq!['"'], escaped(s1) + (seq!['"'] + r1), escaped(s2) + (seq!['"'] + r2));
    lemma_escaped_prefix(s1, s2, r1, r2);
}

/// The digits of a number are decimal digits, at least one.
pub proof fn lemma_digits_shape(n: nat)
    ensures
        digits(n).len() >= 1,
        forall|i: int| 0 <= i < digits(n).len() ==> is_digit(#[trigger] digits(n)[i]),
    decreases n,
{
    if n >= 10 {
        lemma_digits_shape(n / 10);
    }
}

/// Different numbers have different digits.
pub proof fn lemma_digits_injective(n1: nat, n2: nat)
    requires
        digits(n1) == digits(n2),
    ensures
        n1 == n2,
    decreases n1,
{
    if n1 >= 10 {
        lemma_digits_shape(n1 / 10);
    }
    if n2 >= 10 {
        lemma_digits_shape(n2 / 10);
    }
    if n1 >= 10 && n2 >= 10 {
        let d1 = digits(n1);
        assert(d1.drop_last() =~= digits(n1 / 10));
        assert(digits(n2).drop_last() =~= digits(n2 / 10));
        assert(d1.last() == hex_digit((n1 % 10) as int));
        assert(digits(n2).last() == hex_digit((n2 % 10) as int));
        lemma_digits_injective(n1 / 10, n2 / 10);
        assert(hex_digit((n1 % 10) as int) == hex_digit((n2 % 10) as int));
        assert(n1 % 10 == n2 % 10);
        assert(n1 == 10 * (n1 / 10) + n1 % 10);
        assert(n2 == 10 * (n2 / 10) + n2 % 10);
    } else if n1 < 10 && n2 < 10 {
        assert(digits(n1) == seq![hex_digit(n1 as int)]);
        assert(digits(n2) == seq![hex_digit(n2 as int)]);
        assert(seq![hex_digit(n1 as int)][0] == hex_digit(n1 as int));
        assert(seq![hex_digit(n2 as int)][0] == hex_digit(n2 as int));
        assert(hex_digit(n1 as int) == hex_digit(n2 as int));
    } else if n1 >= 10 {
        assert(digits(n1) == digits(n1 / 10) + seq![hex_digit((n1 % 10) as int)]);
        assert(digits(n1).len() != digits(n2).len());
    } else {
        assert(digits(n2) == digits(n2 / 10) + seq![hex_digit((n2 % 10) as int)]);
        assert(digits(n1).len() != digits(n2).len());
    }
}

/// A number's digits are read back unambiguously when a non-digit follows.
pub proof fn lemma_digits_prefix(n1: nat, n2: nat, r1: Seq<char>, r2: Seq<char>)
    requires
        digits(n1) + r1 == digits(n2) + r2,
        r1.len() >= 1 && !is_digit(r1[0]),
        r2.len() >= 1 && !is_digit(r2[0]),
    ensures
        n1 == n2,
        r1 == r2,
{
    let d1 = digits(n1);
    let d2 = digits(n2);
    let t = d1 + r1;
    lemma_digits_shape(n1);
    lemma_digits_shape(n2);
    if d1.len() < d2.len() {
        assert(t[d1.len() as int] == r1[0]);
        assert(t[d1.len() as int] == d2[d1.len() as int]);
    } else if d2.len() < d1.len() {
        assert(t[d2.len() as int] == r2[0]);
        assert(t[d2.len() as int] == d1[d2.len() as int]);
    }
    assert(d1 =~= t.subrange(0, d1.len() as int));
    assert(d2 =~= (d2 + r2).subrange(0, d2.len() as int));
    lemma_digits_injective(n1, n2);
    lemma_cancel(d1, r1, r2);
}

/// The comma-separated items, split at the first one.
pub proof fn lemma_joined_front(items: Seq<Seq<char>>)
    requires
        items.len() >= 2,
    ensures
        joined(items) == items[0] + seq![','] + joined(items.drop_first()),
    decreases items.len(),
{
    if items.len() > 2 {
        let dl = items.drop_last();
        let df = items.drop_first();
        lemma_joined_front(dl);
        assert(dl.drop_first() =~= df.drop_last());
        assert(df.last() == items.last());
        assert(dl[0] == items[0]);
        assert(joined(items) == joined(dl) + seq![','] + items.last());
        assert(joined(df) == joined(df.drop_last()) + seq![','] + df.last());
        assert(joined(items) =~= items[0] + seq![','] + joined(items.drop_first()));
    } else {
        assert(items.drop_last().len() == 1);
        assert(items.drop_first().len() == 1);
        assert(joined(items.drop_last()) == items[0]);
        assert(joined(items.drop_first()) == items[1]);
        assert(joined(items) == joined(items.drop_last()) + seq![','] + items.last());
    }
}

/// The items of an array and its closing bracket are read back unambiguously.
pub proof fn lemma_items_prefix(
    xs: Seq<Seq<char>>,
    ys: Seq<Seq<char>>,
    r1: Seq<char>,
    r2: Seq<char>,
)
    requires
        joined(xs.map_values(|t: Seq<char>| quoted(t))) + (seq![']'] + r1) == joined(
            ys.map_values(|t: Seq<char>| quoted(t)),
        ) + (seq![']'] + r2),
    ensures
        xs == ys,
        r1 == r2,
    decreases xs.len(),
{
    let qx = xs.map_values(|t: Seq<char>| quoted(t));
    let qy = ys.map_values(|t: Seq<char>| quoted(t));
    let t = joined(qx) + (seq![']'] + r1);
    if xs.len() == 0 || ys.len() == 0 {
        if xs.len() > 0 {
            if xs.len() >= 2 {
                lemma_joined_front(qx);
            }
            assert(t =~= quoted(xs[0]) + (t.subrange(quoted(xs[0]).len() as int, t.len() as int)));
            assert(t[0] == '"');
            assert(t[0] == ']');
        } else if ys.len() > 0 {
            if ys.len() >= 2 {
                lemma_joined_front(qy);
            }
            assert(t =~= quoted(ys[0]) + (t.subrange(quoted(ys[0]).len() as int, t.len() as int)));
            assert(t[0] == '"');
            assert(t[0] == ']');
        } else {
            assert(t =~= seq![']'] + r1);
            assert(joined(qy) + (seq![']'] + r2) =~= seq![']'] + r2);
            lemma_cancel(seq![']'], r1, r2);
            assert(xs =~= ys);
        }
    } else {
        let a1 = if xs.len() >= 2 {
            seq![','] + (joined(qx.drop_first()) + (seq![']'] + r1))
        } else {
            seq![']'] + r1
        };
        let a2 = if ys.len() >= 2 {
            seq![','] + (joined(qy.drop_first()) + (seq![']'] + r2))
        } else {
            seq![']'] + r2
        };
        if xs.len() >= 2 {
            lemma_joined_front(qx);
        }
        if ys.len() >= 2 {
            lemma_joined_front(qy);
        }
        assert(t =~= quoted(xs[0]) + a1);
        assert(joined(qy) + (seq![']'] + r2) =~= quoted(ys[0]) + a2);
        lemma_quoted_prefix(xs[0], ys[0], a1, a2);
        assert(a1[0] == a2[0]);
        if xs.len() >= 2 {
            let b1 = joined(qx.drop_first()) + (seq![']'] + r1);
            let b2 = joined(qy.drop_first()) + (seq![']'] + r2);
            lemma_cancel(seq![','], b1, b2);
            assert(qx.drop_first() =~= xs.drop_first().map_values(|t: Seq<char>| quoted(t)));
            assert(qy.drop_first() =~= ys.drop_first().map_values(|t: Seq<char>| quoted(t)));
            lemma_items_prefix(xs.drop_first(), ys.drop_first(), r1, r2);
            assert(xs =~= seq![xs[0]] + xs.drop_first());
            assert(ys =~= seq![ys[0]] + ys.drop_first());
        } else {
            lemma_cancel(seq![']'], r1, r2);
            assert(xs =~= ys);
        }
    }
}

/// An array of string literals is read back unambiguously from the front of a text.
pub proof fn lemma_string_array_prefix(
    xs: Seq<Seq<char>>,
    ys: Seq<Seq<char>>,
    r1: Seq<char>,
    r2: Seq<char>,
)
    requires
        string_array(xs) + r1 == string_array(ys) + r2,
    ensures
        xs == ys,
        r1 == r2,
{
    let j1 = joined(xs.map_values(|t: Seq<char>| quoted(t)));
    let j2 = joined(ys.map_values(|t: Seq<char>| quoted(t)));
    assert(string_array(xs) + r1 =~= seq!['['] + (j1 + (seq![']'] + r1)));
    assert(string_array(ys) + r2 =~= seq!['['] + (j2 + (seq![']'] + r2)));
    lemma_cancel(seq!['['], j1 + (seq![']'] + r1), j2 + (seq![']'] + r2));
    lemma_items_prefix(xs, ys, r1, r2);
}

} // verus!

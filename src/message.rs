//! The message record and its JSON wire form, `{"data":<JSON string>}`.
use vstd::prelude::*;
use vstd::string::StringExecFns;
use crate::payload::digit_char;

verus! {

/// One test message: a single string field.
pub struct TestData {
    pub data: String,
}

/// Why a message could not be encoded or decoded.
#[derive(Debug, PartialEq, Eq, Structural)]
pub enum MessageError {
    /// The JSON encoder refused the value.
    Serialization,
}

/// A hexadecimal digit `d < 16`, in lower case.
pub open spec fn hex_digit(d: nat) -> char {
    if d < 10 {
        digit_char(d)
    } else if d == 10 {
        'a'
    } else if d == 11 {
        'b'
    } else if d == 12 {
        'c'
    } else if d == 13 {
        'd'
    } else if d == 14 {
        'e'
    } else {
        'f'
    }
}

/// How one character stands inside a JSON string literal: a quote, a
/// backslash and the control characters are escaped, the short forms where
/// JSON has one and `\u00xx` otherwise; every other character stands as it is.
pub open spec fn json_escape_char(c: char) -> Seq<char> {
    if c == '"' {
        seq!['\\', '"']
    } else if c == '\\' {
        seq!['\\', '\\']
    } else if c == '\u{8}' {
        seq!['\\', 'b']
    } else if c == '\t' {
        seq!['\\', 't']
    } else if c == '\n' {
        seq!['\\', 'n']
    } else if c == '\u{c}' {
        seq!['\\', 'f']
    } else if c == '\r' {
        seq!['\\', 'r']
    } else if (c as nat) < 32 {
        seq!['\\', 'u', '0', '0', hex_digit((c as nat) / 16), hex_digit((c as nat) % 16)]
    } else {
        seq![c]
    }
}

/// The characters of `s`, each escaped for a JSON string literal.
pub open spec fn json_escaped(s: Seq<char>) -> Seq<char>
    decreases s.len(),
{
    if s.len() == 0 {
        Seq::empty()
    } else {
        json_escape_char(s[0]) + json_escaped(s.drop_first())
    }
}

/// The JSON string literal of `s`: its escaped characters between quotes.
pub open spec fn json_quoted(s: Seq<char>) -> Seq<char> {
    seq!['"'] + json_escaped(s) + seq!['"']
}

/// The wire form of a message whose field holds `data`: the field name
/// framed as a compact JSON object around the field's string literal.
pub open spec fn wire_form(data: Seq<char>) -> Seq<char> {
    "{\"data\":"@ + json_quoted(data) + "}"@
}

/// Relies on serde_json::to_string on a `str`: it writes the string as one
/// JSON string literal, escaping as `json_escape_char` states, into a `Vec`,
/// a writer that never fails, so the call always succeeds.
#[verifier::external_body]
fn json_string(s: &str) -> (r: Option<String>)
    ensures
        r is Some,
        r matches Some(q) ==> q@ == json_quoted(s@),
{
    serde_json::to_string(s).ok()
}

proof fn lemma_escape_nonempty(c: char)
    ensures
        json_escape_char(c).len() >= 1,
        json_escape_char(c).len() == 1 <==> json_escape_char(c)[0] != '\\',
        json_escape_char(c).len() == 1 ==> json_escape_char(c)[0] == c,
        json_escape_char(c).len() == 6 <==> (json_escape_char(c)[0] == '\\'
            && json_escape_char(c)[1] == 'u'),
        json_escape_char(c).len() == 1 || json_escape_char(c).len() == 2
            || json_escape_char(c).len() == 6,
{
}

proof fn lemma_hex_digit_injective(a: nat, b: nat)
    requires
        a < 16,
        b < 16,
        hex_digit(a) == hex_digit(b),
    ensures
        a == b,
{
}

/// Distinct characters escape differently, and no escape is a proper prefix
/// of another: escaped text reads back one way.
proof fn lemma_escape_prefix(c: char, d: char, x: Seq<char>, y: Seq<char>)
    requires
        json_escape_char(c) + x == json_escape_char(d) + y,
    ensures
        c == d,
        x == y,
{
    let u = json_escape_char(c);
    let v = json_escape_char(d);
    let w = u + x;
    lemma_escape_nonempty(c);
    lemma_escape_nonempty(d);
    assert(u[0] == w[0] && v[0] == w[0]);
    if u.len() >= 2 && v.len() >= 2 {
        assert(u[1] == w[1] && v[1] == w[1]);
    }
    assert(u.len() == v.len());
    assert(u =~= w.subrange(0, u.len() as int));
    assert(v =~= w.subrange(0, v.len() as int));
    assert(x =~= w.subrange(u.len() as int, w.len() as int));
    assert(y =~= w.subrange(v.len() as int, w.len() as int));
    if u.len() == 6 {
        assert(u[4] == v[4] && u[5] == v[5]);
        lemma_hex_digit_injective((c as nat) / 16, (d as nat) / 16);
        lemma_hex_digit_injective((c as nat) % 16, (d as nat) % 16);
        assert(c as nat == d as nat);
    }
}

proof fn lemma_escaped_injective(a: Seq<char>, b: Seq<char>)
    requires
        json_escaped(a) == json_escaped(b),
    ensures
        a == b,
    decreases a.len(),
{
    if a.len() == 0 {
        if b.len() > 0 {
            lemma_escape_nonempty(b[0]);
        }
        assert(a =~= b);
    } else {
        lemma_escape_nonempty(a[0]);
        if b.len() == 0 {
            assert(json_escaped(a).len() > 0);
        } else {
            lemma_escape_prefix(a[0], b[0], json_escaped(a.drop_first()), json_escaped(b.drop_first()));
            lemma_escaped_injective(a.drop_first(), b.drop_first());
            assert(a =~= seq![a[0]] + a.drop_first());
            assert(b =~= seq![b[0]] + b.drop_first());
        }
    }
}

/// Messages with different data have different wire forms.
pub proof fn lemma_wire_form_injective(a: Seq<char>, b: Seq<char>)
    requires
        wire_form(a) == wire_form(b),
    ensures
        a == b,
{
    reveal_strlit("{\"data\":");
    reveal_strlit("}");
    let w = wire_form(a);
    let head = "{\"data\":"@;
    let n = head.len() + 1;
    assert(json_escaped(a) =~= w.subrange(n as int, w.len() - 2));
    assert(json_escaped(b) =~= w.subrange(n as int, w.len() - 2));
    lemma_escaped_injective(a, b);
}

impl TestData {
    /// A message carrying `data`.
    pub fn new(data: String) -> (r: TestData)
        ensures
            r.data@ == data@,
    {
        TestData { data }
    }

    /// The JSON text of this message, `{"data":"..."}`, as serde_json writes
    /// a record with that one field. It always succeeds.
    pub fn serialize_message(&self) -> (r: Result<String, MessageError>)
        ensures
            r is Ok,
            r matches Ok(t) ==> t@ == wire_form(self.data@),
    {
        match json_string(self.data.as_str()) {
            Some(quoted) => {
                let mut text = String::from_str("{\"data\":");
                text.append(quoted.as_str());
                text.append("}");
                proof {
                    assert(text@ =~= wire_form(self.data@));
                }
                Ok(text)
            },
            None => Err(MessageError::Serialization),
        }
    }
}

} // verus!

//! Presentation of secrets: the JSON text of a record or of one field, and
//! plain printing of a record's fields.
//!
//! The JSON text is built and specified character by character: every string
//! is escaped per the JSON string grammar (quote, backslash, and the named
//! control escapes, with `\u00..` for the remaining control characters).

use vstd::prelude::*;
use vstd::string::{StrSliceExecFns, StringExecFns};

use crate::objects::{
    account_field, api_field, login_field_ok, api_field_ok, APIObj, AccountObj, AccountView,
    APIView, FieldType, Secret, SecretView,
};
use std::io::Write;

verus! {

/// The lower-case hex digit of a value below 16.
pub open spec fn hex_digit(n: int) -> char {
    if n == 0 {
        '0'
    } else if n == 1 {
        '1'
    } else if n == 2 {
        '2'
    } else if n == 3 {
        '3'
    } else if n == 4 {
        '4'
    } else if n == 5 {
        '5'
    } else if n == 6 {
        '6'
    } else if n == 7 {
        '7'
    } else if n == 8 {
        '8'
    } else if n == 9 {
        '9'
    } else if n == 10 {
        'a'
    } else if n == 11 {
        'b'
    } else if n == 12 {
        'c'
    } else if n == 13 {
        'd'
    } else if n == 14 {
        'e'
    } else {
        'f'
    }
}

/// One character's JSON string-escape.
pub open spec fn escape_char(c: char) -> Seq<char> {
    if c == '"' {
        seq!['\\', '"']
    } else if c == '\\' {
        seq!['\\', '\\']
    } else if c == '\u{8}' {
        seq!['\\', 'b']
    } else if c == '\u{c}' {
        seq!['\\', 'f']
    } else if c == '\n' {
        seq!['\\', 'n']
    } else if c == '\r' {
        seq!['\\', 'r']
    } else if c == '\t' {
        seq!['\\', 't']
    } else if (c as u32) < 32 {
        seq![
            '\\',
            'u',
            '0',
            '0',
            hex_digit(((c as u32) as int) / 16),
            hex_digit(((c as u32) as int) % 16),
        ]
    } else {
        seq![c]
    }
}

/// A string's JSON escape, character by character.
pub open spec fn json_escaped(s: Seq<char>) -> Seq<char>
    decreases s.len(),
{
    if s.len() == 0 {
        Seq::empty()
    } else {
        escape_char(s[0]) + json_escaped(s.drop_first())
    }
}

proof fn lemma_json_escaped_push(s: Seq<char>, c: char)
    ensures
        json_escaped(s.push(c)) =~= json_escaped(s) + escape_char(c),
    decreases s.len(),
{
    if s.len() == 0 {
        assert(s.push(c).len() == 1);
        assert(s.push(c)[0] == c);
        assert(s.push(c).drop_first().len() == 0);
        assert(json_escaped(s.push(c).drop_first()) == Seq::<char>::empty());
        assert(json_escaped(s.push(c)) == escape_char(c) + json_escaped(s.push(c).drop_first()));
        assert(json_escaped(s.push(c)) =~= escape_char(c));
        assert(json_escaped(s) + escape_char(c) =~= escape_char(c));
    } else {
        assert(s.push(c)[0] == s[0]);
        assert(s.push(c).drop_first() =~= s.drop_first().push(c));
        lemma_json_escaped_push(s.drop_first(), c);
        assert(json_escaped(s.push(c)) =~= escape_char(s[0]) + (json_escaped(s.drop_first())
            + escape_char(c)));
        assert(json_escaped(s) + escape_char(c) =~= escape_char(s[0]) + (json_escaped(
            s.drop_first(),
        ) + escape_char(c)));
    }
}

/// Append the JSON escape of `s` to `out`.
fn push_json_escaped(out: &mut String, s: &str)
    ensures
        final(out)@ == old(out)@ + json_escaped(s@),
{
    let n = s.unicode_len();
    proof {
        assert(s@.take(0) =~= Seq::<char>::empty());
        assert(old(out)@ + json_escaped(s@.take(0)) =~= old(out)@);
    }
    let mut i: usize = 0;
    while i < n
        invariant
            i <= n,
            n as int == s@.len(),
            out@ == old(out)@ + json_escaped(s@.take(i as int)),
        decreases n - i,
    {
        let c = s.get_char(i);
        proof {
            assert(s@.take(i as int + 1) =~= s@.take(i as int).push(s@[i as int]));
            lemma_json_escaped_push(s@.take(i as int), s@[i as int]);
        }
        let ghost done = json_escaped(s@.take(i as int));
        if c == '"' {
            out.append("\\\"");
            proof {
                reveal_strlit("\\\"");
                assert(("\\\"")@ =~= escape_char(c));
            }
        } else if c == '\\' {
            out.append("\\\\");
            proof {
                reveal_strlit("\\\\");
                assert(("\\\\")@ =~= escape_char(c));
            }
        } else if c == '\u{8}' {
            out.append("\\b");
            proof {
                reveal_strlit("\\b");
                assert(("\\b")@ =~= escape_char(c));
            }
        } else if c == '\u{c}' {
            out.append("\\f");
            proof {
                reveal_strlit("\\f");
                assert(("\\f")@ =~= escape_char(c));
            }
        } else if c == '\n' {
            out.append("\\n");
            proof {
                reveal_strlit("\\n");
                assert(("\\n")@ =~= escape_char(c));
            }
        } else if c == '\r' {
            out.append("\\r");
            proof {
                reveal_strlit("\\r");
                assert(("\\r")@ =~= escape_char(c));
            }
        } else if c == '\t' {
            out.append("\\t");
            proof {
                reveal_strlit("\\t");
                assert(("\\t")@ =~= escape_char(c));
            }
        } else if (c as u32) < 32 {
            let hex = "0123456789abcdef";
            proof {
                reveal_strlit("\\u00");
                reveal_strlit("0123456789abcdef");
            }
            out.append("\\u00");
            let hi: usize = ((c as u32) / 16) as usize;
            let lo: usize = ((c as u32) % 16) as usize;
            let h1: &str = hex.substring_char(hi, hi + 1);
            out.append(h1);
            let h2: &str = hex.substring_char(lo, lo + 1);
            out.append(h2);
            proof {
                assert(hex@[hi as int] == hex_digit(hi as int));
                assert(hex@[lo as int] == hex_digit(lo as int));
                assert(h1@ =~= seq![hex_digit(hi as int)]);
                assert(h2@ =~= seq![hex_digit(lo as int)]);
                assert(("\\u00")@ + h1@ + h2@ =~= escape_char(c));
                assert(out@ =~= (old(out)@ + done) + (("\\u00")@ + h1@ + h2@));
            }
        } else {
            let ch: &str = s.substring_char(i, i + 1);
            out.append(ch);
            proof {
                assert(ch@ =~= seq![s@[i as int]]);
                assert(escape_char(c) =~= seq![s@[i as int]]);
            }
        }
        proof {
            assert(out@ =~= old(out)@ + (done + escape_char(s@[i as int])));
        }
        i = i + 1;
    }
    proof {
        assert(s@.take(n as int) =~= s@);
    }
}

/// A JSON string literal: the escaped text between double quotes.
pub open spec fn quoted(s: Seq<char>) -> Seq<char> {
    seq!['"'] + json_escaped(s) + seq!['"']
}

/// Append the JSON string literal of `s` to `out`.
fn push_quoted(out: &mut String, s: &str)
    ensures
        final(out)@ == old(out)@ + quoted(s@),
{
    proof {
        reveal_strlit("\"");
    }
    out.append("\"");
    push_json_escaped(out, s);
    out.append("\"");
    proof {
        assert(("\"")@ =~= seq!['"']);
        assert(out@ =~= old(out)@ + quoted(s@));
    }
}

/// The JSON text of a login credential: one object with its three fields,
/// each on its own line.
pub open spec fn login_json(a: AccountView) -> Seq<char> {
    "{\n  \"account_name\": "@ + quoted(a.account_name) + ",\n  \"user_name\": "@ + quoted(
        a.user_name,
    ) + ",\n  \"password\": "@ + quoted(a.password) + "\n}"@
}

/// The JSON text of an API key: one object with its four fields, each on its
/// own line.
pub open spec fn api_json(a: APIView) -> Seq<char> {
    "{\n  \"api_name\": "@ + quoted(a.api_name) + ",\n  \"description\": "@ + quoted(a.description)
        + ",\n  \"user_name\": "@ + quoted(a.user_name) + ",\n  \"api_key\": "@ + quoted(a.api_key)
        + "\n}"@
}

/// The JSON text of a secret of either kind.
pub open spec fn secret_json(s: SecretView) -> Seq<char> {
    match s {
        SecretView::Account(a) => login_json(a),
        SecretView::API(a) => api_json(a),
    }
}

/// The JSON key under which a login credential's field is reported.
pub open spec fn account_field_key(f: FieldType) -> Seq<char> {
    match f {
        FieldType::User => "User"@,
        FieldType::Secname => "Name"@,
        FieldType::Pass => "Pass"@,
        _ => Seq::empty(),
    }
}

/// The JSON key under which an API key's field is reported.
pub open spec fn api_field_key(f: FieldType) -> Seq<char> {
    match f {
        FieldType::User => "User"@,
        FieldType::Secname => "Name"@,
        FieldType::Desc => "Description"@,
        FieldType::Key => "Key"@,
        _ => Seq::empty(),
    }
}

/// The JSON text of one field of a secret: a one-entry object, or the empty
/// string for a field outside the kind's field set.
pub open spec fn secret_field_json(s: SecretView, f: FieldType) -> Seq<char> {
    match s {
        SecretView::Account(a) => if !login_field_ok(f) {
            Seq::empty()
        } else {
            "{"@ + quoted(account_field_key(f)) + ": "@ + quoted(account_field(a, f)) + "}"@
        },
        SecretView::API(a) => if !api_field_ok(f) {
            Seq::empty()
        } else {
            "{"@ + quoted(api_field_key(f)) + ": "@ + quoted(api_field(a, f)) + "}"@
        },
    }
}

impl AccountObj {
    /// The JSON text of this record, per [`login_json`].
    pub fn get_json_str(&self) -> (r: String)
        ensures
            r@ == login_json(self@),
    {
        let mut out = String::new();
        out.append("{\n  \"account_name\": ");
        push_quoted(&mut out, self.account_name.as_str());
        out.append(",\n  \"user_name\": ");
        push_quoted(&mut out, self.user_name.as_str());
        out.append(",\n  \"password\": ");
        push_quoted(&mut out, self.password.as_str());
        out.append("\n}");
        proof {
            assert(out@ =~= login_json(self@));
        }
        out
    }
}

impl APIObj {
    /// The JSON text of this record, per [`api_json`].
    pub fn get_json_str(&self) -> (r: String)
        ensures
            r@ == api_json(self@),
    {
        let mut out = String::new();
        out.append("{\n  \"api_name\": ");
        push_quoted(&mut out, self.api_name.as_str());
        out.append(",\n  \"description\": ");
        push_quoted(&mut out, self.description.as_str());
        out.append(",\n  \"user_name\": ");
        push_quoted(&mut out, self.user_name.as_str());
        out.append(",\n  \"api_key\": ");
        push_quoted(&mut out, self.api_key.as_str());
        out.append("\n}");
        proof {
            assert(out@ =~= api_json(self@));
        }
        out
    }
}

impl Secret {
    /// The JSON text of this secret, per [`secret_json`].
    pub fn get_json_str(&self) -> (r: String)
        ensures
            r@ == secret_json(self@),
    {
        match self {
            Secret::Account(acc) => acc.get_json_str(),
            Secret::API(api) => api.get_json_str(),
        }
    }

    /// The JSON text of one field of this secret, per [`secret_field_json`]:
    /// a one-entry object, or the empty string for a field outside the
    /// kind's field set.
    pub fn get_field_json_str(&self, field: FieldType) -> (r: String)
        ensures
            r@ == secret_field_json(self@, field),
    {
        match self {
            Secret::Account(acc) => {
                let key: &str = match field {
                    FieldType::User => "User",
                    FieldType::Secname => "Name",
                    FieldType::Pass => "Pass",
                    _ => { return String::new() },
                };
                let value = acc.get_field(field);
                let mut out = String::new();
                out.append("{");
                push_quoted(&mut out, key);
                out.append(": ");
                push_quoted(&mut out, value.as_str());
                out.append("}");
                proof {
                    assert(out@ =~= secret_field_json(self@, field));
                }
                out
            },
            Secret::API(api) => {
                let key: &str = match field {
                    FieldType::User => "User",
                    FieldType::Secname => "Name",
                    FieldType::Desc => "Description",
                    FieldType::Key => "Key",
                    _ => { return String::new() },
                };
                let value = api.get_field(field);
                let mut out = String::new();
                out.append("{");
                push_quoted(&mut out, key);
                out.append(": ");
                push_quoted(&mut out, value.as_str());
                out.append("}");
                proof {
                    assert(out@ =~= secret_field_json(self@, field));
                }
                out
            },
        }
    }
}

/// The given texts joined with a comma and line break between neighbours.
pub open spec fn joined(items: Seq<Seq<char>>) -> Seq<char>
    decreases items.len(),
{
    if items.len() == 0 {
        Seq::empty()
    } else if items.len() == 1 {
        items[0]
    } else {
        items[0] + ",\n"@ + joined(items.drop_first())
    }
}

proof fn lemma_joined_push(items: Seq<Seq<char>>, x: Seq<char>)
    ensures
        items.len() == 0 ==> joined(items.push(x)) =~= x,
        items.len() > 0 ==> joined(items.push(x)) =~= joined(items) + ",\n"@ + x,
    decreases items.len(),
{
    if items.len() == 0 {
        assert(items.push(x)[0] == x);
    } else {
        assert(items.push(x)[0] == items[0]);
        assert(items.push(x).drop_first() =~= items.drop_first().push(x));
        lemma_joined_push(items.drop_first(), x);
        if items.len() == 1 {
            assert(items.drop_first().len() == 0);
            assert(joined(items.push(x)) =~= items[0] + ",\n"@ + x);
            assert(joined(items) =~= items[0]);
        } else {
            assert(joined(items.push(x)) =~= items[0] + ",\n"@ + (joined(items.drop_first())
                + ",\n"@ + x));
            assert(joined(items) + ",\n"@ + x =~= items[0] + ",\n"@ + (joined(items.drop_first())
                + ",\n"@ + x));
        }
    }
}

/// The JSON texts of the given secrets, per [`secret_json`].
pub open spec fn secret_json_texts(ss: Seq<Secret>) -> Seq<Seq<char>> {
    ss.map_values(|s: Secret| secret_json(s@))
}

/// The JSON array holding every given secret's object text, in order.
pub open spec fn secret_list_json_spec(ss: Seq<Secret>) -> Seq<char> {
    "["@ + joined(secret_json_texts(ss)) + "]"@
}

/// The JSON array of the given secrets, per [`secret_list_json_spec`]: every
/// record's object text in order, between square brackets.
pub fn secret_list_json(secrets: &Vec<Secret>) -> (r: String)
    ensures
        r@ == secret_list_json_spec(secrets@),
{
    let mut out = String::new();
    out.append("[");
    proof {
        reveal_strlit("[");
        reveal_strlit("]");
        assert(secrets@.take(0) =~= Seq::<Secret>::empty());
        assert(secret_json_texts(secrets@.take(0)) =~= Seq::<Seq<char>>::empty());
    }
    let mut i: usize = 0;
    while i < secrets.len()
        invariant
            i <= secrets@.len(),
            out@ == "["@ + joined(secret_json_texts(secrets@.take(i as int))),
        decreases secrets@.len() - i,
    {
        proof {
            assert(secrets@.take(i as int + 1) =~= secrets@.take(i as int).push(
                secrets@[i as int],
            ));
            assert(secret_json_texts(secrets@.take(i as int).push(secrets@[i as int]))
                =~= secret_json_texts(secrets@.take(i as int)).push(
                secret_json(secrets@[i as int]@),
            ));
            lemma_joined_push(
                secret_json_texts(secrets@.take(i as int)),
                secret_json(secrets@[i as int]@),
            );
        }
        if i > 0 {
            out.append(",\n");
        }
        let text = secrets[i].get_json_str();
        out.append(text.as_str());
        proof {
            assert(secret_json_texts(secrets@.take(i as int)).len() == i as int);
            assert(out@ =~= "["@ + joined(secret_json_texts(secrets@.take(i as int + 1))));
        }
        i = i + 1;
    }
    out.append("]");
    proof {
        assert(secrets@.take(secrets@.len() as int) =~= secrets@);
        assert(out@ =~= secret_list_json_spec(secrets@));
    }
    out
}

/// Relies on `std::io::Stdout` and the `write!` macro to put one field name
/// and its value on standard output.
#[verifier::external_body]
pub fn print_result(field: &str, value: &str) {
    let _ = write!(std::io::stdout(), "{}:   {}\n", field, value);
}

/// Relies on `std::io::Stdout` and the `write!` macro to put a blank line on
/// standard output.
#[verifier::external_body]
pub(crate) fn print_newline() {
    let _ = write!(std::io::stdout(), "\n");
}

impl Secret {
    /// Print every field of this secret, one per line, with a blank line
    /// after.
    pub fn print(&self) {
        match self {
            Secret::Account(acc) => {
                print_result("Name", acc.account_name.as_str());
                print_result("User", acc.user_name.as_str());
                print_result("Pass", acc.password.as_str());
                print_newline();
            },
            Secret::API(api) => {
                print_result("Name", api.api_name.as_str());
                print_result("User", api.user_name.as_str());
                print_result("Desc", api.description.as_str());
                print_result("Key", api.api_key.as_str());
                print_newline();
            },
        }
    }

    /// Print one field of this secret; a field outside the kind's field set
    /// prints nothing.
    pub fn print_field(&self, field: FieldType) {
        match self {
            Secret::Account(acc) => {
                match field {
                    FieldType::User => print_result("User", acc.user_name.as_str()),
                    FieldType::Secname => print_result("Name", acc.account_name.as_str()),
                    FieldType::Pass => print_result("Pass", acc.password.as_str()),
                    _ => {},
                }
            },
            Secret::API(api) => {
                match field {
                    FieldType::Secname => print_result("Name", api.api_name.as_str()),
                    FieldType::Desc => print_result("Desc", api.description.as_str()),
                    FieldType::User => print_result("User", api.user_name.as_str()),
                    FieldType::Key => print_result("Key", api.api_key.as_str()),
                    _ => {},
                }
            },
        }
    }
}

} // verus!

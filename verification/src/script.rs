//! A worker script: its source and the environment it is started with.

use vstd::prelude::*;
use vstd::pervasive::unreached;
use vstd::string::*;

verus! {

/// `serde_json::Error`, carried through without a look inside.
#[verifier::external_type_specification]
#[verifier::external_body]
pub struct ExJsonError(serde_json::Error);

/// The JSON string literal, quotes and escapes included, that
/// `serde_json::to_string` writes for a text.
pub uninterp spec fn json_string_text(text: Seq<char>) -> Seq<char>;

/// `serde_json::to_string` on a `str`: the result is the JSON string
/// literal of the text. It does not fail: a text is written by
/// `serialize_str`, whose one error is an error of the writer, and the writer
/// is a `Vec<u8>`.
#[verifier::external_body]
fn json_string(text: &str) -> (r: Result<String, serde_json::Error>)
    ensures
        r is Ok,
        r matches Ok(json) ==> json@ == json_string_text(text@),
{
    serde_json::to_string(text)
}

/// The members of a JSON object, name, colon and value joined by commas,
/// for the first `n` of the given pairs, whose names and values are JSON
/// texts already.
pub open spec fn object_members(quoted: Seq<(Seq<char>, Seq<char>)>, n: int) -> Seq<char>
    decreases n,
{
    if n <= 0 {
        Seq::empty()
    } else {
        let head = object_members(quoted, n - 1);
        let sep = if n == 1 {
            Seq::<char>::empty()
        } else {
            ","@
        };
        head + sep + quoted[n - 1].0 + ":"@ + quoted[n - 1].1
    }
}

/// The compact JSON object with one member for each of the given pairs, in
/// their order.
pub open spec fn object_text(quoted: Seq<(Seq<char>, Seq<char>)>) -> Seq<char> {
    "{"@ + object_members(quoted, quoted.len() as int) + "}"@
}

/// The entries with each name and each value as its JSON string literal.
pub open spec fn quoted_entries(entries: Seq<(Seq<char>, Seq<char>)>) -> Seq<
    (Seq<char>, Seq<char>),
> {
    Seq::new(
        entries.len(),
        |i: int| (json_string_text(entries[i].0), json_string_text(entries[i].1)),
    )
}

/// The environment as compact JSON: an object with one member per entry, in
/// the order of the entries; the empty object where there is no environment.
pub open spec fn env_json_text(env: Option<Seq<(Seq<char>, Seq<char>)>>) -> Seq<char> {
    match env {
        None => "{}"@,
        Some(entries) => object_text(quoted_entries(entries)),
    }
}

/// The JSON string literal of a text.
pub fn quote(text: &str) -> (json: String)
    ensures
        json@ == json_string_text(text@),
{
    match json_string(text) {
        Ok(json) => json,
        Err(_) => {
            assert(false);
            unreached()
        },
    }
}

/// Writes the compact JSON object for pairs whose names and values are JSON
/// texts already: the members in order, joined by commas, in braces.
pub fn json_object(quoted: &Vec<(String, String)>) -> (text: String)
    ensures
        text@ == object_text(quoted.deep_view()),
{
    let mut out = String::from_str("{");
    let n = quoted.len();
    let mut i: usize = 0;
    while i < n
        invariant
            n == quoted@.len(),
            i <= n,
            out@ == "{"@ + object_members(quoted.deep_view(), i as int),
        decreases n - i,
    {
        if i > 0 {
            out.append(",");
        }
        out.append(quoted[i].0.as_str());
        out.append(":");
        out.append(quoted[i].1.as_str());
        proof {
            let deep = quoted.deep_view();
            assert(deep[i as int] == (quoted@[i as int].0@, quoted@[i as int].1@));
            assert(out@ == "{"@ + object_members(deep, i + 1));
        }
        i += 1;
    }
    out.append("}");
    proof {
        assert(quoted.deep_view().len() == n);
    }
    out
}

/// Source code of a worker with its optional environment.
#[derive(Debug)]
pub struct Script {
    /// The module source.
    pub code: String,
    /// Environment entries, name and value, handed to the script at bootstrap.
    pub env: Option<Vec<(String, String)>>,
}

impl Script {
    /// A script without an environment.
    pub fn new(code: &str) -> (script: Script)
        ensures
            script.code@ == code@,
            script.env is None,
    {
        Script { code: String::from_str(code), env: None }
    }

    /// A script with the given environment.
    pub fn with_env(code: &str, env: Vec<(String, String)>) -> (script: Script)
        ensures
            script.code@ == code@,
            script.env == Some(env),
    {
        Script { code: String::from_str(code), env: Some(env) }
    }

    /// The environment as JSON text, for the bootstrap call: `{}` without an
    /// environment, else an object with one member per entry. Each name and
    /// each value is written by the serializer; the texts it wrote are put
    /// together by `json_object`.
    pub fn to_json_string(&self) -> (json: String)
        ensures
            json@ == env_json_text(self.env.deep_view()),
    {
        match &self.env {
            None => {
                proof {
                    assert(self.env.deep_view() == None::<Seq<(Seq<char>, Seq<char>)>>);
                }
                String::from_str("{}")
            },
            Some(entries) => {
                proof {
                    assert(self.env.deep_view() == Some(entries.deep_view()));
                    assert(entries.deep_view().len() == entries@.len());
                }
                let mut quoted: Vec<(String, String)> = Vec::new();
                let n = entries.len();
                let mut i: usize = 0;
                while i < n
                    invariant
                        n == entries@.len(),
                        i <= n,
                        entries.deep_view().len() == n,
                        quoted@.len() == i,
                        forall|j: int|
                            0 <= j < i ==> #[trigger] quoted.deep_view()[j] == quoted_entries(
                                entries.deep_view(),
                            )[j],
                    decreases n - i,
                {
                    let ghost before = quoted.deep_view();
                    let key = quote(entries[i].0.as_str());
                    let value = quote(entries[i].1.as_str());
                    quoted.push((key, value));
                    proof {
                        let deep = entries.deep_view();
                        assert(deep[i as int] == (entries@[i as int].0@, entries@[i as int].1@));
                        assert(quoted.deep_view() =~= before.push((key@, value@)));
                    }
                    i += 1;
                }
                proof {
                    assert(quoted.deep_view().len() == n);
                    assert(quoted.deep_view() =~= quoted_entries(entries.deep_view()));
                }
                json_object(&quoted)
            },
        }
    }
}

} // verus!

use vstd::prelude::*;
use vstd::string::StringExecFns;
use crate::command::Reply;

verus! {

/// A request payload carrying a name and, optionally, email and age.
pub struct UserInfo {
    pub name: String,
    pub email: Option<String>,
    pub age: Option<String>,
}

/// The fixed greeting returned by the no-argument request.
pub open spec fn noinput_spec() -> Seq<char> {
    "Hello, You've been greeted from Rust!"@
}

/// The sentinel a failed or absent lookup degrades to.
pub open spec fn unknown_text() -> Seq<char> {
    "Unknown"@
}

/// An optional field as shown to the user: its text, or a fixed note
/// that it was not given.
pub open spec fn field_or_note(o: Option<Seq<char>>) -> Seq<char> {
    match o {
        Some(s) => s,
        None => "not provided"@,
    }
}

/// The message the structured request answers with, built purely from
/// its payload.
pub open spec fn hello_message_spec(
    name: Seq<char>,
    email: Option<Seq<char>>,
    age: Option<Seq<char>>,
) -> Seq<char> {
    "Hello, "@ + name + "! Your email is "@ + field_or_note(email) + " and you are "@
        + field_or_note(age) + " years old. You've been greeted from Rust!"@
}

/// The message the store-backed request answers with, for a given
/// looked-up (or sentinel) user name.
pub open spec fn greet_message_spec(name: Seq<char>) -> Seq<char> {
    "Hello, \""@ + name + "\"! You've been greeted from Rust!"@
}

/// The no-argument greeting request: returns a fixed string.
pub fn noinput() -> (r: String)
    ensures
        r@ == noinput_spec(),
{
    let r = String::from_str("Hello, You've been greeted from Rust!");
    r
}

/// An optional field's display text.
fn field_text(o: &Option<String>) -> (r: &str)
    ensures
        r@ == field_or_note(match *o {
            Some(s) => Some(s@),
            None => None,
        }),
{
    match o {
        Some(s) => s.as_str(),
        None => "not provided",
    }
}

/// The structured greeting request: pure formatting of the payload, no
/// store access.
pub fn hello(value: &UserInfo) -> (r: String)
    ensures
        r@ == hello_message_spec(
            value.name@,
            match value.email {
                Some(s) => Some(s@),
                None => None,
            },
            match value.age {
                Some(s) => Some(s@),
                None => None,
            },
        ),
{
    let mut r = String::from_str("Hello, ");
    r.append(value.name.as_str());
    r.append("! Your email is ");
    r.append(field_text(&value.email));
    r.append(" and you are ");
    r.append(field_text(&value.age));
    r.append(" years old. You've been greeted from Rust!");
    r
}

/// The message for a looked-up user name.
pub fn greet_message(name: &str) -> (r: String)
    ensures
        r@ == greet_message_spec(name@),
{
    let mut r = String::from_str("Hello, \"");
    r.append(name);
    r.append("\"! You've been greeted from Rust!");
    r
}

/// The name a reply carries, or the sentinel: a failed lookup degrades
/// to "Unknown" rather than an error.
pub fn name_or_unknown(r: &Reply) -> (n: String)
    ensures
        r matches Ok(v) ==> n@ == v@,
        r is Err ==> n@ == unknown_text(),
{
    match r {
        Ok(v) => v.clone(),
        Err(_) => String::from_str("Unknown"),
    }
}

} // verus!

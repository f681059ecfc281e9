//! The account record loaded at start-up, read from its JSON text.
use vstd::prelude::*;
use vstd::string::StringExecFns;
use crate::json::{Json, member, member_of, parse, parsed_json, str_member, str_member_of};

verus! {

/// The account record loaded at start-up. Without a token no request can be
/// made.
pub struct Credentials {
    pub email: String,
    pub password: String,
    pub token: Option<String>,
}

/// The view of a loaded token.
pub open spec fn token_view(token: Option<String>) -> Option<Seq<char>> {
    match token {
        Some(t) => Some(t@),
        None => None,
    }
}

/// The view of a record: email, password and token.
pub open spec fn credentials_view(c: Credentials) -> (Seq<char>, Seq<char>, Option<Seq<char>>) {
    (c.email@, c.password@, token_view(c.token))
}

/// The token that a `token` member gives: `Some(None)` where it is absent or
/// null, `Some(Some(t))` for a string, `None` for a member of any other kind.
pub open spec fn token_member(m: Option<Json>) -> Option<Option<Seq<char>>> {
    match m {
        None => Some(None),
        Some(Json::Null) => Some(None),
        Some(Json::Str(t)) => Some(Some(t@)),
        _ => None,
    }
}

/// The record that a JSON document holds: an object with string members
/// `email` and `password`, and a `token` that is a string, null or absent.
/// Other members are ignored.
pub open spec fn credentials_of(j: Json) -> Option<(Seq<char>, Seq<char>, Option<Seq<char>>)> {
    match (str_member_of(j, "email"@), str_member_of(j, "password"@), token_member(member_of(j, "token"@))) {
        (Some(e), Some(p), Some(t)) => Some((e, p, t)),
        _ => None,
    }
}

/// The record that `text` holds; `None` where it is no JSON document.
pub open spec fn credentials_of_text(text: Seq<char>) -> Option<(Seq<char>, Seq<char>, Option<Seq<char>>)> {
    match parsed_json(text) {
        Some(j) => credentials_of(j),
        None => None,
    }
}

impl Credentials {
    /// Reads the record from the text of a credentials file.
    pub fn from_text(text: &str) -> (r: Option<Credentials>)
        ensures
            match r {
                Some(c) => credentials_of_text(text@) == Some(credentials_view(c)),
                None => credentials_of_text(text@) is None,
            },
    {
        match parse(text) {
            Some(j) => Credentials::from_json(&j),
            None => None,
        }
    }

    /// Reads the record from a parsed JSON document.
    pub fn from_json(j: &Json) -> (r: Option<Credentials>)
        ensures
            match r {
                Some(c) => credentials_of(*j) == Some(credentials_view(c)),
                None => credentials_of(*j) is None,
            },
    {
        let email = match str_member(j, &String::from_str("email")) {
            Some(e) => e.clone(),
            None => return None,
        };
        let password = match str_member(j, &String::from_str("password")) {
            Some(p) => p.clone(),
            None => return None,
        };
        let token = match member(j, &String::from_str("token")) {
            None => None,
            Some(Json::Null) => None,
            Some(Json::Str(t)) => Some(t.clone()),
            Some(_) => return None,
        };
        Some(Credentials { email, password, token })
    }

    /// Whether a token is loaded.
    pub fn has_token(&self) -> (r: bool)
        ensures
            r == self.token is Some,
    {
        self.token.is_some()
    }
}

} // verus!

//! Turns a response of one of the endpoints into the lines shown to the user.
use vstd::prelude::*;
use vstd::string::StringExecFns;
use crate::json::{
    Json, parse, parsed_json, str_member_or, str_member_of, elements_of, json_quoted,
    to_pretty_string_literal,
};

verus! {

/// The four endpoints reachable from the menu.
#[derive(Clone, Copy, Debug, PartialEq, Eq, Structural)]
pub enum Endpoint {
    Profile,
    Documents,
    Notifications,
    Devices,
}

/// Why a successful response could not be shown.
#[derive(Clone, Copy, Debug, PartialEq, Eq, Structural)]
pub enum FormatError {
    /// The body is not a JSON document.
    MalformedBody,
}

/// The views of a list of lines.
pub open spec fn lines_view(v: Seq<String>) -> Seq<Seq<char>> {
    v.map_values(|s: String| s@)
}

/// Whether a status code lies in the success range.
pub open spec fn is_success_status(status: u16) -> bool {
    200 <= status && status < 300
}

/// The decimal digit for `d < 10`.
pub open spec fn digit_char(d: nat) -> char {
    ((d + 48) as u8) as char
}

/// `n` in decimal, without leading zeros.
pub open spec fn decimal(n: nat) -> Seq<char>
    decreases n,
{
    if n < 10 {
        seq![digit_char(n)]
    } else {
        decimal(n / 10).push(digit_char(n % 10))
    }
}

/// `fallback` where `v` is `None`.
pub open spec fn or_default(v: Option<Seq<char>>, fallback: Seq<char>) -> Seq<char> {
    match v {
        Some(s) => s,
        None => fallback,
    }
}

/// The greeting for a profile document.
pub open spec fn profile_lines(j: Json) -> Seq<Seq<char>> {
    seq![
        "Hi, "@ + or_default(str_member_of(j, "first_name"@), "Unknown"@) + "!"@,
        "Your id: "@ + or_default(str_member_of(j, "id"@), "Unknown"@),
    ]
}

/// The block shown for one notification.
pub open spec fn notification_block(n: Json) -> Seq<Seq<char>> {
    seq![
        "--------------"@,
        "Message: "@ + or_default(str_member_of(n, "message"@), "No message"@),
        "Author: "@ + or_default(str_member_of(n, "created_by"@), "Unknown"@),
        "Time: "@ + or_default(str_member_of(n, "created_at"@), "Unknown"@),
        "____________"@,
    ]
}

/// The blocks of all notifications in `items`, in order.
pub open spec fn notification_blocks(items: Seq<Json>) -> Seq<Seq<char>>
    decreases items.len(),
{
    if items.len() == 0 {
        Seq::empty()
    } else {
        notification_blocks(items.drop_last()) + notification_block(items.last())
    }
}

/// The listing for a notifications document: a header, then one block for
/// each element when the document is an array.
pub open spec fn notification_lines(j: Json) -> Seq<Seq<char>> {
    seq!["Notifications:"@] + notification_blocks(elements_of(j))
}

/// What a successful response with `body` shows for endpoint `e`. The
/// profile and notifications endpoints read the body as JSON; the others show
/// the body itself written as one JSON string literal.
pub open spec fn response_lines(e: Endpoint, body: Seq<char>) -> Result<Seq<Seq<char>>, FormatError> {
    match e {
        Endpoint::Profile => match parsed_json(body) {
            Some(j) => Ok(profile_lines(j)),
            None => Err(FormatError::MalformedBody),
        },
        Endpoint::Notifications => match parsed_json(body) {
            Some(j) => Ok(notification_lines(j)),
            None => Err(FormatError::MalformedBody),
        },
        _ => Ok(seq![json_quoted(body)]),
    }
}

/// What a response shows: the status where it is not a success, else the
/// body as `response_lines` lays it out.
pub open spec fn outcome_lines(e: Endpoint, status: u16, body: Seq<char>) -> Result<Seq<Seq<char>>, FormatError> {
    if is_success_status(status) {
        response_lines(e, body)
    } else {
        Ok(seq!["Error: "@ + decimal(status as nat)])
    }
}

/// Tells a successful status (2xx) from every other one.
pub fn status_is_success(status: u16) -> (r: bool)
    ensures
        r == is_success_status(status),
{
    200 <= status && status < 300
}

/// Writes `n` in decimal.
pub fn decimal_string(n: u16) -> (r: String)
    ensures
        r@ == decimal(n as nat),
    decreases n,
{
    let d = n % 10;
    let digit = if d == 0 {
        String::from_str("0")
    } else if d == 1 {
        String::from_str("1")
    } else if d == 2 {
        String::from_str("2")
    } else if d == 3 {
        String::from_str("3")
    } else if d == 4 {
        String::from_str("4")
    } else if d == 5 {
        String::from_str("5")
    } else if d == 6 {
        String::from_str("6")
    } else if d == 7 {
        String::from_str("7")
    } else if d == 8 {
        String::from_str("8")
    } else {
        String::from_str("9")
    };
    proof {
        reveal_strlit("0");
        reveal_strlit("1");
        reveal_strlit("2");
        reveal_strlit("3");
        reveal_strlit("4");
        reveal_strlit("5");
        reveal_strlit("6");
        reveal_strlit("7");
        reveal_strlit("8");
        reveal_strlit("9");
    }
    assert(digit@ == seq![digit_char(d as nat)]);
    if n < 10 {
        digit
    } else {
        let mut r = decimal_string(n / 10);
        r.append(digit.as_str());
        assert(r@ =~= decimal(n as nat));
        r
    }
}

/// The line that reports a status outside the success range.
pub fn status_error_line(status: u16) -> (r: String)
    ensures
        r@ == "Error: "@ + decimal(status as nat),
{
    String::from_str("Error: ").concat(decimal_string(status).as_str())
}

/// The greeting for a profile document, with "Unknown" for a missing name or id.
pub fn format_profile(j: &Json) -> (r: Vec<String>)
    ensures
        lines_view(r@) == profile_lines(*j),
{
    let first_name = str_member_or(j, &String::from_str("first_name"), "Unknown");
    let id = str_member_or(j, &String::from_str("id"), "Unknown");
    let mut r: Vec<String> = Vec::new();
    r.push(String::from_str("Hi, ").concat(first_name.as_str()).concat("!"));
    r.push(String::from_str("Your id: ").concat(id.as_str()));
    assert(lines_view(r@) =~= profile_lines(*j));
    r
}

/// The block shown for one notification, with defaults for missing fields.
pub fn format_notification(n: &Json) -> (r: Vec<String>)
    ensures
        lines_view(r@) == notification_block(*n),
{
    let message = str_member_or(n, &String::from_str("message"), "No message");
    let author = str_member_or(n, &String::from_str("created_by"), "Unknown");
    let time = str_member_or(n, &String::from_str("created_at"), "Unknown");
    let mut r: Vec<String> = Vec::new();
    r.push(String::from_str("--------------"));
    r.push(String::from_str("Message: ").concat(message.as_str()));
    r.push(String::from_str("Author: ").concat(author.as_str()));
    r.push(String::from_str("Time: ").concat(time.as_str()));
    r.push(String::from_str("____________"));
    assert(lines_view(r@) =~= notification_block(*n));
    r
}

/// The listing for a notifications document.
pub fn format_notifications(j: &Json) -> (r: Vec<String>)
    ensures
        lines_view(r@) == notification_lines(*j),
{
    let mut r: Vec<String> = Vec::new();
    r.push(String::from_str("Notifications:"));
    match j {
        Json::Array(items) => {
            let mut i: usize = 0;
            assert(items@.take(0) =~= Seq::<Json>::empty());
            assert(lines_view(r@) =~= seq!["Notifications:"@] + notification_blocks(items@.take(0)));
            while i < items.len()
                invariant
                    i <= items@.len(),
                    lines_view(r@) == seq!["Notifications:"@] + notification_blocks(items@.take(i as int)),
                decreases items@.len() - i,
            {
                let block = format_notification(&items[i]);
                let mut k: usize = 0;
                let ghost before = r@;
                while k < block.len()
                    invariant
                        k <= block@.len(),
                        r@ == before + block@.take(k as int),
                    decreases block@.len() - k,
                {
                    r.push(block[k].clone());
                    assert(block@.take(k + 1) =~= block@.take(k as int).push(block@[k as int]));
                    k += 1;
                }
                assert(block@.take(k as int) =~= block@);
                assert(items@.take(i + 1).drop_last() =~= items@.take(i as int));
                assert(lines_view(r@) =~= lines_view(before) + lines_view(block@));
                assert(lines_view(r@) =~= seq!["Notifications:"@] + notification_blocks(items@.take(i + 1)));
                i += 1;
            }
            assert(items@.take(i as int) =~= items@);
        },
        _ => {
            assert(lines_view(r@) =~= notification_lines(*j));
        },
    }
    r
}

/// What a successful response shows for endpoint `e`; a body that the
/// profile or notifications endpoint cannot read as JSON is an error.
pub fn format_response(e: Endpoint, body: &str) -> (r: Result<Vec<String>, FormatError>)
    ensures
        match r {
            Ok(lines) => response_lines(e, body@) == Ok::<_, FormatError>(lines_view(lines@)),
            Err(err) => response_lines(e, body@) == Err::<Seq<Seq<char>>, _>(err),
        },
{
    match e {
        Endpoint::Profile => match parse(body) {
            Some(j) => Ok(format_profile(&j)),
            None => Err(FormatError::MalformedBody),
        },
        Endpoint::Notifications => match parse(body) {
            Some(j) => Ok(format_notifications(&j)),
            None => Err(FormatError::MalformedBody),
        },
        _ => {
            let mut r: Vec<String> = Vec::new();
            r.push(to_pretty_string_literal(body));
            assert(lines_view(r@) =~= seq![json_quoted(body@)]);
            Ok(r)
        },
    }
}

/// What a response with `status` and `body` shows: "Error: <status>" for a
/// status outside 2xx, with the body left unread; else `format_response`.
pub fn format_outcome(e: Endpoint, status: u16, body: &str) -> (r: Result<Vec<String>, FormatError>)
    ensures
        match r {
            Ok(lines) => outcome_lines(e, status, body@) == Ok::<_, FormatError>(lines_view(lines@)),
            Err(err) => outcome_lines(e, status, body@) == Err::<Seq<Seq<char>>, _>(err),
        },
{
    if status_is_success(status) {
        format_response(e, body)
    } else {
        let mut r: Vec<String> = Vec::new();
        r.push(status_error_line(status));
        assert(lines_view(r@) =~= seq!["Error: "@ + decimal(status as nat)]);
        Ok(r)
    }
}

} // verus!

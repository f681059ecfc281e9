//! Properties that relate the menu loop, the requests it makes and the
//! formatter.
use vstd::prelude::*;
use crate::format::{Endpoint, FormatError, decimal, outcome_lines, response_lines};
use crate::json::{escaped, escaped_char, json_quoted};
use crate::menu::{
    Action, MenuEvent, MenuState, choice_of_line, endpoint_of_choice, headers_view,
    request_headers, step_spec, url_of,
};

verus! {

/// Each of the choices 1 to 4, with a token loaded, sends one request to that
/// choice's fixed URL, carrying the token as `Authorization`, the client
/// identifier as `User-Agent`, and no other header.
pub proof fn lemma_fetch_sends_fixed_request(
    line: String,
    token: Seq<char>,
    s: MenuState,
    a: Action,
)
    requires
        step_spec(MenuState::AwaitingInput, MenuEvent::Line(line), Some(token), s, a),
        choice_of_line(line@) matches Some(c) && 1 <= c <= 4,
    ensures
        a matches Action::Send(r) && {
            &&& Some(r.endpoint) == endpoint_of_choice(choice_of_line(line@)->0)
            &&& r.url@ == url_of(r.endpoint)
            &&& r.headers@.len() == 2
            &&& headers_view(r.headers@) == request_headers(token)
        },
        s == MenuState::Dispatching(endpoint_of_choice(choice_of_line(line@)->0)->0),
{
    let c = choice_of_line(line@)->0;
    assert(c == 1 || c == 2 || c == 3 || c == 4);
    if let Action::Send(r) = a {
        assert(r.headers@.len() == headers_view(r.headers@).len());
    }
}

/// Without a token, each of the choices 1 to 4 reports the missing token and
/// returns to the menu; no request is sent.
pub proof fn lemma_no_token_no_request(line: String, s: MenuState, a: Action)
    requires
        step_spec(MenuState::AwaitingInput, MenuEvent::Line(line), None, s, a),
        choice_of_line(line@) matches Some(c) && 1 <= c <= 4,
    ensures
        s == MenuState::AwaitingInput,
        a is MissingToken,
        !(a is Send),
{
    let c = choice_of_line(line@)->0;
    assert(c == 1 || c == 2 || c == 3 || c == 4);
}

/// Choice 5 ends the loop with the exit message, whatever the token.
pub proof fn lemma_exit_choice_ends(
    line: String,
    token: Option<Seq<char>>,
    s: MenuState,
    a: Action,
)
    requires
        step_spec(MenuState::AwaitingInput, MenuEvent::Line(line), token, s, a),
        choice_of_line(line@) == Some(5u32),
    ensures
        s == MenuState::Exiting,
        a is Exit,
{
}

/// Once the loop is exiting it stays so, and asks for nothing more: no
/// prompt, no request.
pub proof fn lemma_exiting_is_final(
    event: MenuEvent,
    token: Option<Seq<char>>,
    s: MenuState,
    a: Action,
)
    requires
        step_spec(MenuState::Exiting, event, token, s, a),
    ensures
        s == MenuState::Exiting,
        a is Stop,
{
}

/// The endpoints other than the profile and the notifications show the body
/// as one JSON string literal, never the bare text; so the body `hello` shows
/// as `"hello"`, quotes included.
pub proof fn lemma_other_endpoints_quote_body(e: Endpoint, body: Seq<char>)
    requires
        e != Endpoint::Profile,
        e != Endpoint::Notifications,
    ensures
        response_lines(e, body) == Ok::<_, FormatError>(seq![json_quoted(body)]),
        body == "hello"@ ==> json_quoted(body) == "\"hello\""@,
{
    if body == "hello"@ {
        reveal_strlit("hello");
        reveal_strlit("\"hello\"");
        assert(body.drop_last() =~= seq!['h', 'e', 'l', 'l']);
        assert(body.drop_last().drop_last() =~= seq!['h', 'e', 'l']);
        assert(body.drop_last().drop_last().drop_last() =~= seq!['h', 'e']);
        assert(body.drop_last().drop_last().drop_last().drop_last() =~= seq!['h']);
        assert(seq!['h'].drop_last() =~= Seq::<char>::empty());
        assert(('h' as u32) == 104 && ('e' as u32) == 101 && ('l' as u32) == 108 && ('o' as u32) == 111);
        assert(escaped_char('h') =~= seq!['h']);
        assert(escaped_char('e') =~= seq!['e']);
        assert(escaped_char('l') =~= seq!['l']);
        assert(escaped_char('o') =~= seq!['o']);
        assert(escaped(Seq::<char>::empty()) =~= Seq::<char>::empty());
        assert(escaped(seq!['h']) =~= seq!['h']);
        assert(escaped(seq!['h', 'e']) =~= seq!['h', 'e']);
        assert(escaped(seq!['h', 'e', 'l']) =~= seq!['h', 'e', 'l']);
        assert(escaped(seq!['h', 'e', 'l', 'l']) =~= seq!['h', 'e', 'l', 'l']);
        assert(escaped(body) =~= body);
        assert(json_quoted(body) =~= "\"hello\""@);
    }
}

/// A status outside 2xx shows only "Error: " and the status in decimal,
/// whatever the endpoint and the body; the body is not read.
pub proof fn lemma_failed_status_reported(e: Endpoint, status: u16, body: Seq<char>)
    requires
        !(200 <= status && status < 300),
    ensures
        outcome_lines(e, status, body) == Ok::<_, FormatError>(seq!["Error: "@ + decimal(status as nat)]),
        status == 404 ==> decimal(status as nat) == "404"@,
{
    if status == 404 {
        reveal_strlit("404");
        assert(decimal(4) =~= seq!['4']);
        assert(decimal(40) =~= seq!['4', '0']);
        assert(decimal(404) =~= seq!['4', '0', '4']);
    }
}

} // verus!

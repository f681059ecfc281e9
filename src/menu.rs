//! The menu: reading a choice, the loop's states, and the request each
//! choice sends.
use vstd::prelude::*;
use vstd::string::{StrSliceExecFns, StringExecFns};
use crate::credentials::{Credentials, token_view};
use crate::format::{Endpoint, lines_view};

verus! {

/// What `str::trim` leaves of `s`.
pub uninterp spec fn trimmed(s: Seq<char>) -> Seq<char>;

/// Relies on `str::trim`: the result is `s` without leading and trailing
/// white space, so it is no longer than `s`.
#[verifier::external_body]
fn trim_line(s: &str) -> (r: &str)
    ensures
        r@ == trimmed(s@),
        r@.len() <= s@.len(),
{
    s.trim()
}

/// Whether `c` is an ASCII decimal digit.
pub open spec fn is_digit(c: char) -> bool {
    '0' <= c && c <= '9'
}

/// Whether `s` is one or more decimal digits.
pub open spec fn all_digits(s: Seq<char>) -> bool {
    s.len() > 0 && forall|i: int| 0 <= i < s.len() ==> is_digit(#[trigger] s[i])
}

/// The number that the digits `s` write.
pub open spec fn digits_value(s: Seq<char>) -> nat
    decreases s.len(),
{
    if s.len() == 0 {
        0
    } else {
        digits_value(s.drop_last()) * 10 + ((s.last() as u32) - 48) as nat
    }
}

/// The digits of an unsigned decimal number: all of `s`, or what follows one
/// leading `+`.
pub open spec fn number_digits(s: Seq<char>) -> Seq<char> {
    if s.len() > 0 && s[0] == '+' {
        s.drop_first()
    } else {
        s
    }
}

/// What parsing `s` as a `u32` gives: `None` unless `s` is an optional `+`
/// and one or more digits whose value fits in 32 bits.
pub open spec fn parsed_u32(s: Seq<char>) -> Option<u32> {
    let d = number_digits(s);
    if all_digits(d) && digits_value(d) <= u32::MAX {
        Some(digits_value(d) as u32)
    } else {
        None
    }
}

proof fn lemma_digits_value_grows(s: Seq<char>, i: int)
    requires
        0 <= i <= s.len(),
        forall|k: int| 0 <= k < s.len() ==> is_digit(#[trigger] s[k]),
    ensures
        digits_value(s.take(i)) <= digits_value(s),
    decreases s.len() - i,
{
    if i < s.len() {
        lemma_digits_value_grows(s, i + 1);
        assert(s.take(i + 1).drop_last() =~= s.take(i));
    } else {
        assert(s.take(i) =~= s);
    }
}

/// Parses `s` as an unsigned 32-bit decimal number, as `str::parse::<u32>` does.
pub fn parse_u32(s: &str) -> (r: Option<u32>)
    ensures
        r == parsed_u32(s@),
{
    let n = s.unicode_len();
    let start: usize = if n > 0 && s.get_char(0) == '+' { 1 } else { 0 };
    let ghost d = number_digits(s@);
    assert(d =~= s@.skip(start as int));
    if start == n {
        return None;
    }
    let mut value: u32 = 0;
    let mut i: usize = start;
    while i < n
        invariant
            start <= i <= n,
            n == s@.len(),
            d =~= s@.skip(start as int),
            d == number_digits(s@),
            forall|k: int| 0 <= k < i - start ==> is_digit(#[trigger] d[k]),
            value as nat == digits_value(d.take(i - start)),
        decreases n - i,
    {
        let c = s.get_char(i);
        assert(c == d[i - start]);
        if !('0' <= c && c <= '9') {
            assert(!is_digit(d[i - start]));
            return None;
        }
        let digit = (c as u32) - 48;
        assert(d.take(i - start + 1).drop_last() =~= d.take(i - start));
        assert(d.take(i - start + 1).last() == c);
        assert(digits_value(d.take(i - start + 1)) == value as nat * 10 + digit as nat);
        if value > (u32::MAX - digit) / 10 {
            proof {
                assert(digits_value(d.take(i - start + 1)) > u32::MAX) by (nonlinear_arith)
                    requires
                        digits_value(d.take(i - start + 1)) == value as nat * 10 + digit as nat,
                        value > (u32::MAX - digit) / 10,
                        digit < 10,
                ;
                if all_digits(d) {
                    lemma_digits_value_grows(d, i - start + 1);
                }
            }
            return None;
        }
        value = value * 10 + digit;
        i += 1;
    }
    assert(d.take(i - start) =~= d);
    Some(value)
}

/// A line of input read as a menu choice: the number it writes, once white
/// space around it is gone.
pub open spec fn choice_of_line(line: Seq<char>) -> Option<u32> {
    parsed_u32(trimmed(line))
}

/// Reads a line of input as a menu choice.
pub fn parse_choice(line: &str) -> (r: Option<u32>)
    ensures
        r == choice_of_line(line@),
{
    parse_u32(trim_line(line))
}

/// The endpoint that a menu choice fetches: choices 1 to 4.
pub open spec fn endpoint_of_choice(choice: u32) -> Option<Endpoint> {
    if choice == 1 {
        Some(Endpoint::Profile)
    } else if choice == 2 {
        Some(Endpoint::Documents)
    } else if choice == 3 {
        Some(Endpoint::Notifications)
    } else if choice == 4 {
        Some(Endpoint::Devices)
    } else {
        None
    }
}

/// The choice that ends the program.
pub const EXIT_CHOICE: u32 = 5;

/// What a menu choice asks for.
#[derive(Clone, Copy, Debug, PartialEq, Eq, Structural)]
pub enum Command {
    Fetch(Endpoint),
    Exit,
    Invalid,
}

/// The command of a parsed choice; a line that is no number is invalid.
pub open spec fn command_spec(choice: Option<u32>) -> Command {
    match choice {
        Some(c) => match endpoint_of_choice(c) {
            Some(e) => Command::Fetch(e),
            None => if c == EXIT_CHOICE {
                Command::Exit
            } else {
                Command::Invalid
            },
        },
        None => Command::Invalid,
    }
}

/// Maps a parsed choice to its command.
pub fn command_of(choice: Option<u32>) -> (r: Command)
    ensures
        r == command_spec(choice),
{
    match choice {
        Some(1) => Command::Fetch(Endpoint::Profile),
        Some(2) => Command::Fetch(Endpoint::Documents),
        Some(3) => Command::Fetch(Endpoint::Notifications),
        Some(4) => Command::Fetch(Endpoint::Devices),
        Some(EXIT_CHOICE) => Command::Exit,
        _ => Command::Invalid,
    }
}

/// The URL of each endpoint.
pub open spec fn url_of(e: Endpoint) -> Seq<char> {
    match e {
        Endpoint::Profile => "http://localhost:8000/api/v1/private/profile/my"@,
        Endpoint::Documents => "http://localhost:8000/api/v1/private/profile/my/documents"@,
        Endpoint::Notifications => "http://localhost:8000/api/v1/private/profile/my/notifications"@,
        Endpoint::Devices => "http://localhost:8000/api/v1/private/profile/my/devices"@,
    }
}

/// The name of each endpoint in messages.
pub open spec fn label_of(e: Endpoint) -> Seq<char> {
    match e {
        Endpoint::Profile => "profile"@,
        Endpoint::Documents => "documents"@,
        Endpoint::Notifications => "notifications"@,
        Endpoint::Devices => "connected devices"@,
    }
}

/// The client identifier sent with every request.
pub open spec fn user_agent() -> Seq<char> {
    "insomnia/8.4.0"@
}

impl Endpoint {
    /// The URL that this endpoint is fetched from.
    pub fn url(&self) -> (r: String)
        ensures
            r@ == url_of(*self),
    {
        match self {
            Endpoint::Profile => String::from_str("http://localhost:8000/api/v1/private/profile/my"),
            Endpoint::Documents => String::from_str(
                "http://localhost:8000/api/v1/private/profile/my/documents",
            ),
            Endpoint::Notifications => String::from_str(
                "http://localhost:8000/api/v1/private/profile/my/notifications",
            ),
            Endpoint::Devices => String::from_str("http://localhost:8000/api/v1/private/profile/my/devices"),
        }
    }

    /// The name of this endpoint in messages.
    pub fn label(&self) -> (r: String)
        ensures
            r@ == label_of(*self),
    {
        match self {
            Endpoint::Profile => String::from_str("profile"),
            Endpoint::Documents => String::from_str("documents"),
            Endpoint::Notifications => String::from_str("notifications"),
            Endpoint::Devices => String::from_str("connected devices"),
        }
    }
}

/// One authenticated GET: where it goes and the headers it carries.
pub struct Request {
    pub endpoint: Endpoint,
    pub url: String,
    pub headers: Vec<(String, String)>,
}

/// The headers of every request: the raw token as `Authorization`, and the
/// client identifier as `User-Agent`; no others.
pub open spec fn request_headers(token: Seq<char>) -> Seq<(Seq<char>, Seq<char>)> {
    seq![("Authorization"@, token), ("User-Agent"@, user_agent())]
}

/// The views of a list of headers.
pub open spec fn headers_view(h: Seq<(String, String)>) -> Seq<(Seq<char>, Seq<char>)> {
    h.map_values(|p: (String, String)| (p.0@, p.1@))
}

/// Whether `r` is the request for endpoint `e` made with `token`.
pub open spec fn is_request_for(r: Request, e: Endpoint, token: Seq<char>) -> bool {
    &&& r.endpoint == e
    &&& r.url@ == url_of(e)
    &&& headers_view(r.headers@) == request_headers(token)
}

/// The request that fetches `e` with `token`.
pub fn build_request(e: Endpoint, token: &String) -> (r: Request)
    ensures
        is_request_for(r, e, token@),
{
    let mut headers: Vec<(String, String)> = Vec::new();
    headers.push((String::from_str("Authorization"), token.clone()));
    headers.push((String::from_str("User-Agent"), String::from_str("insomnia/8.4.0")));
    assert(headers_view(headers@) =~= request_headers(token@));
    Request { endpoint: e, url: e.url(), headers }
}

/// The states of the menu loop.
#[derive(Clone, Copy, Debug, PartialEq, Eq, Structural)]
pub enum MenuState {
    AwaitingInput,
    Dispatching(Endpoint),
    Exiting,
}

/// What the loop hands to the outside after one step.
pub enum Action {
    /// Send this request, then report `MenuEvent::RequestDone`.
    Send(Request),
    /// Say that no token is loaded, then show the menu again.
    MissingToken,
    /// Show the menu and read a line.
    Prompt,
    /// Say goodbye and stop.
    Exit,
    /// Say that the choice is invalid and stop.
    InvalidChoice,
    /// Nothing is left to do.
    Stop,
}

/// What the outside reports to the loop.
pub enum MenuEvent {
    /// A line was read at the prompt.
    Line(String),
    /// The request sent last has finished, however it ended.
    RequestDone,
}

/// Whether `(s, a)` is the step of the loop from `state` on `event`, with
/// `token` the token loaded at start-up.
pub open spec fn step_spec(
    state: MenuState,
    event: MenuEvent,
    token: Option<Seq<char>>,
    s: MenuState,
    a: Action,
) -> bool {
    match (state, event) {
        (MenuState::AwaitingInput, MenuEvent::Line(line)) => match command_spec(
            choice_of_line(line@),
        ) {
            Command::Fetch(e) => match token {
                Some(t) => s == MenuState::Dispatching(e) && (a matches Action::Send(r)
                    && is_request_for(r, e, t)),
                None => s == MenuState::AwaitingInput && a is MissingToken,
            },
            Command::Exit => s == MenuState::Exiting && a is Exit,
            Command::Invalid => s == MenuState::Exiting && a is InvalidChoice,
        },
        (MenuState::Dispatching(_), MenuEvent::RequestDone) => s == MenuState::AwaitingInput
            && a is Prompt,
        (MenuState::Exiting, _) => s == MenuState::Exiting && a is Stop,
        _ => s == state && a is Stop,
    }
}

/// The menu shown before each choice.
pub open spec fn menu_text() -> Seq<Seq<char>> {
    seq![
        ""@,
        "Choose an action:"@,
        "1. Get my profile"@,
        "2. Get my documents"@,
        "3. Get notifications"@,
        "4. Get connected devices"@,
        "5. Exit"@,
    ]
}

/// The menu shown before each choice, line by line.
pub fn menu_lines() -> (r: Vec<String>)
    ensures
        lines_view(r@) == menu_text(),
{
    let mut r: Vec<String> = Vec::new();
    r.push(String::from_str(""));
    r.push(String::from_str("Choose an action:"));
    r.push(String::from_str("1. Get my profile"));
    r.push(String::from_str("2. Get my documents"));
    r.push(String::from_str("3. Get notifications"));
    r.push(String::from_str("4. Get connected devices"));
    r.push(String::from_str("5. Exit"));
    assert(lines_view(r@) =~= menu_text());
    r
}

/// The line shown for an action, where it has one.
pub open spec fn action_message(a: Action) -> Option<Seq<char>> {
    match a {
        Action::MissingToken => Some("Error: No authentication token found."@),
        Action::Exit => Some("Exiting..."@),
        Action::InvalidChoice => Some("Invalid choice"@),
        _ => None,
    }
}

impl Action {
    /// The line to show for this action, where it has one.
    pub fn message(&self) -> (r: Option<String>)
        ensures
            match r {
                Some(m) => action_message(*self) == Some(m@),
                None => action_message(*self) is None,
            },
    {
        match self {
            Action::MissingToken => Some(String::from_str("Error: No authentication token found.")),
            Action::Exit => Some(String::from_str("Exiting...")),
            Action::InvalidChoice => Some(String::from_str("Invalid choice")),
            _ => None,
        }
    }
}

/// The line shown when credentials cannot be loaded at start-up.
pub fn credentials_missing_line() -> (r: String)
    ensures
        r@ == "Error: Authentication data not found."@,
{
    String::from_str("Error: Authentication data not found.")
}

/// The line shown when a request to `e` fails before any response, with
/// `detail` describing the failure.
pub fn request_failure_line(e: Endpoint, detail: &str) -> (r: String)
    ensures
        r@ == "Error making "@ + label_of(e) + " request: "@ + detail@,
{
    String::from_str("Error making ").concat(e.label().as_str()).concat(" request: ").concat(detail)
}

/// One step of the menu loop.
pub fn step(state: MenuState, event: &MenuEvent, creds: &Credentials) -> (r: (MenuState, Action))
    ensures
        step_spec(state, *event, token_view(creds.token), r.0, r.1),
{
    match (state, event) {
        (MenuState::AwaitingInput, MenuEvent::Line(line)) => {
            match command_of(parse_choice(line.as_str())) {
                Command::Fetch(e) => match &creds.token {
                    Some(t) => (MenuState::Dispatching(e), Action::Send(build_request(e, t))),
                    None => (MenuState::AwaitingInput, Action::MissingToken),
                },
                Command::Exit => (MenuState::Exiting, Action::Exit),
                Command::Invalid => (MenuState::Exiting, Action::InvalidChoice),
            }
        },
        (MenuState::Dispatching(_), MenuEvent::RequestDone) => (MenuState::AwaitingInput, Action::Prompt),
        (MenuState::Exiting, _) => (MenuState::Exiting, Action::Stop),
        _ => (state, Action::Stop),
    }
}

} // verus!

//! The cloud firmware source: a long-poll exchange in which the device's
//! status is POSTed and the answer is the next command.
//!
//! The library builds each request and decides what every response means;
//! the HTTP exchange and the sleeps belong to the caller.
use vstd::prelude::*;
use vstd::string::StringExecFns;

use crate::codec::{cbor_decode_command, cbor_encode_status, cbor_of_status, command_of_cbor};
use crate::error::DfuError;
use crate::protocol::{Command, CommandView, Status};

verus! {

/// Pause before a request is sent again after an unreadable answer.
pub const DEFAULT_BACKOFF_MS: u32 = 1000;

/// Seconds the HTTP client waits beyond the long-poll time the server is
/// asked to hold the request for.
pub const TIMEOUT_SLACK_SECS: u64 = 5;

/// Settings of the cloud source.
pub struct DrogueFirmwareService {
    /// Base URL of the cloud's HTTP endpoint.
    pub url: String,
    /// User for basic authentication.
    pub user: String,
    /// Password for basic authentication.
    pub password: String,
    /// Seconds the server may hold a request before it answers.
    pub timeout_secs: u64,
    /// Name of the device this agent reports for, if not itself.
    pub act_as: Option<String>,
    /// Pause before retrying after an unreadable answer.
    pub backoff_ms: u32,
}

/// What to do with the answer to one POST.
#[derive(Debug, PartialEq, Eq)]
pub enum CloudAction {
    /// Hand this command to the driver.
    Deliver(Command),
    /// Sleep `ms` milliseconds, then send the same request again.
    Backoff { ms: u32 },
    /// Give up on this request.
    Fail(DfuError),
}

/// Whether an HTTP status reports success.
pub open spec fn is_success(code: u16) -> bool {
    200 <= code < 300
}

/// The character of decimal digit `d`.
pub open spec fn digit_char(d: nat) -> char {
    seq!['0', '1', '2', '3', '4', '5', '6', '7', '8', '9'][d as int]
}

/// The decimal writing of `n`, without leading zeros.
pub open spec fn decimal(n: nat) -> Seq<char>
    decreases n,
{
    if n < 10 {
        seq![digit_char(n)]
    } else {
        decimal(n / 10) + seq![digit_char(n % 10)]
    }
}

/// The action that the answer `code`, carrying `decoded`, calls for.
pub open spec fn response_action(
    a: CloudAction,
    backoff_ms: u32,
    code: u16,
    decoded: Option<CommandView>,
) -> bool {
    if !is_success(code) {
        a matches CloudAction::Fail(e) && e == DfuError::Http(code)
    } else {
        match decoded {
            Some(c) => a matches CloudAction::Deliver(d) && d@ == c,
            None => a matches CloudAction::Backoff { ms } && ms == backoff_ms,
        }
    }
}

fn digit_str(d: u64) -> (r: &'static str)
    requires
        d < 10,
    ensures
        r@ == seq![digit_char(d as nat)],
{
    proof {
        reveal_strlit("0");
        reveal_strlit("1");
        reveal_strlit("2");
        reveal_strlit("3");
        reveal_strlit("4");
        reveal_strlit("5");
        reveal_strlit("6");
        reveal_strlit("7");
        reveal_strlit("8");
        reveal_strlit("9");
    }
    let r = if d == 0 {
        "0"
    } else if d == 1 {
        "1"
    } else if d == 2 {
        "2"
    } else if d == 3 {
        "3"
    } else if d == 4 {
        "4"
    } else if d == 5 {
        "5"
    } else if d == 6 {
        "6"
    } else if d == 7 {
        "7"
    } else if d == 8 {
        "8"
    } else {
        "9"
    };
    assert(r@ =~= seq![digit_char(d as nat)]);
    r
}

/// The decimal writing of `n`.
pub fn decimal_string(n: u64) -> (r: String)
    ensures
        r@ == decimal(n as nat),
    decreases n,
{
    if n < 10 {
        String::from_str(digit_str(n))
    } else {
        let head = decimal_string(n / 10);
        head.concat(digit_str(n % 10))
    }
}

/// The user a gateway authenticates as when it reports for `device` of
/// `application`: `device@application`.
pub fn device_user(device: &str, application: &str) -> (r: String)
    ensures
        r@ == device@ + "@"@ + application@,
{
    String::from_str(device).concat("@").concat(application)
}

/// The CBOR body that carries status `s`.
pub fn request_body(s: &Status) -> (r: Vec<u8>)
    ensures
        r@ == cbor_of_status(s@),
{
    match cbor_encode_status(s) {
        Some(b) => b,
        None => Vec::new(),
    }
}

impl DrogueFirmwareService {
    /// A cloud source at `url` with the given credentials, asking the server
    /// to hold each request up to `timeout_secs`.
    pub fn new(url: &str, user: &str, password: &str, timeout_secs: u64) -> (r: Self)
        ensures
            r.url@ == url@,
            r.user@ == user@,
            r.password@ == password@,
            r.timeout_secs == timeout_secs,
            r.act_as is None,
            r.backoff_ms == DEFAULT_BACKOFF_MS,
    {
        DrogueFirmwareService {
            url: String::from_str(url),
            user: String::from_str(user),
            password: String::from_str(password),
            timeout_secs,
            act_as: None,
            backoff_ms: DEFAULT_BACKOFF_MS,
        }
    }

    /// The same source, reporting on behalf of device `name`.
    pub fn acting_as(self, name: &str) -> (r: Self)
        ensures
            r.act_as matches Some(n) && n@ == name@,
            r.url == self.url,
            r.user == self.user,
            r.password == self.password,
            r.timeout_secs == self.timeout_secs,
            r.backoff_ms == self.backoff_ms,
    {
        DrogueFirmwareService { act_as: Some(String::from_str(name)), ..self }
    }

    /// The same source, pausing `ms` milliseconds after an unreadable answer.
    pub fn with_backoff(self, ms: u32) -> (r: Self)
        ensures
            r.backoff_ms == ms,
            r.url == self.url,
            r.user == self.user,
            r.password == self.password,
            r.timeout_secs == self.timeout_secs,
            r.act_as == self.act_as,
    {
        DrogueFirmwareService { backoff_ms: ms, ..self }
    }

    /// The URL every status is POSTed to.
    pub fn endpoint(&self) -> (r: String)
        ensures
            r@ == self.url@ + "/v1/dfu"@,
    {
        self.url.clone().concat("/v1/dfu")
    }

    /// The query parameters of a request: `ct`, the long-poll time in
    /// seconds, and `as`, the device reported for, if any.
    pub fn query(&self) -> (r: Vec<(String, String)>)
        ensures
            r@.len() == (if self.act_as is Some { 2int } else { 1int }),
            r@[0].0@ == "ct"@,
            r@[0].1@ == decimal(self.timeout_secs as nat),
            self.act_as matches Some(n) ==> r@[1].0@ == "as"@ && r@[1].1@ == n@,
    {
        let mut q: Vec<(String, String)> = Vec::new();
        q.push((String::from_str("ct"), decimal_string(self.timeout_secs)));
        match &self.act_as {
            Some(n) => {
                q.push((String::from_str("as"), n.clone()));
            },
            None => {},
        }
        q
    }

    /// Seconds the HTTP client itself waits for an answer: the long-poll
    /// time plus a margin, so the server's own timeout comes first.
    pub fn client_timeout_secs(&self) -> (r: u64)
        ensures
            r == (if self.timeout_secs + TIMEOUT_SLACK_SECS <= u64::MAX {
                (self.timeout_secs + TIMEOUT_SLACK_SECS) as u64
            } else {
                u64::MAX
            }),
    {
        self.timeout_secs.saturating_add(TIMEOUT_SLACK_SECS)
    }

    /// What an answer with HTTP status `code` calls for, given the command
    /// its body decoded to: a failure unless the status is a success, else
    /// the command, or a pause and a retry when the body held none.
    pub fn classify_response(&self, code: u16, decoded: Option<Command>) -> (r: CloudAction)
        ensures
            response_action(
                r,
                self.backoff_ms,
                code,
                match decoded {
                    Some(c) => Some(c@),
                    None => None,
                },
            ),
    {
        if code < 200 || code >= 300 {
            return CloudAction::Fail(DfuError::Http(code));
        }
        match decoded {
            Some(c) => CloudAction::Deliver(c),
            None => CloudAction::Backoff { ms: self.backoff_ms },
        }
    }

    /// What an answer with HTTP status `code` and body `body` calls for; the
    /// body is read as CBOR only when the status is a success.
    pub fn on_response(&self, code: u16, body: &[u8]) -> (r: CloudAction)
        ensures
            response_action(r, self.backoff_ms, code, command_of_cbor(body@)),
    {
        if code < 200 || code >= 300 {
            return CloudAction::Fail(DfuError::Http(code));
        }
        let decoded = cbor_decode_command(body);
        self.classify_response(code, decoded)
    }
}

} // verus!

use vstd::prelude::*;

use crate::error::RustyBotError;
use crate::text::occurs_at;

verus! {

/// The release track of the toolchain that runs the code.
#[derive(Clone, Copy, Debug, PartialEq, Eq, Structural)]
pub enum Channel {
    Stable,
    Beta,
    Nightly,
}

/// The name of a channel as the sandbox spells it.
pub open spec fn channel_name(c: Channel) -> Seq<char> {
    match c {
        Channel::Stable => seq!['s', 't', 'a', 'b', 'l', 'e'],
        Channel::Beta => seq!['b', 'e', 't', 'a'],
        Channel::Nightly => seq!['n', 'i', 'g', 'h', 't', 'l', 'y'],
    }
}

impl Channel {
    /// The name of the channel as the sandbox spells it.
    pub fn name(&self) -> (r: String)
        ensures
            r@ == channel_name(*self),
    {
        match self {
            Channel::Stable => {
                proof {
                    reveal_strlit("stable");
                }
                String::from_str("stable")
            },
            Channel::Beta => {
                proof {
                    reveal_strlit("beta");
                }
                String::from_str("beta")
            },
            Channel::Nightly => {
                proof {
                    reveal_strlit("nightly");
                }
                String::from_str("nightly")
            },
        }
    }
}

/// A request to run code in the sandbox.
#[derive(Debug)]
pub struct PlaygroundRequest {
    backtrace: bool,
    channel: Channel,
    code: String,
    crate_type: String,
    edition: String,
    mode: String,
    tests: bool,
}

/// The fields of a request, with texts as character sequences.
pub struct RequestView {
    pub backtrace: bool,
    pub channel: Channel,
    pub code: Seq<char>,
    pub crate_type: Seq<char>,
    pub edition: Seq<char>,
    pub mode: Seq<char>,
    pub tests: bool,
}

impl View for PlaygroundRequest {
    type V = RequestView;

    closed spec fn view(&self) -> RequestView {
        RequestView {
            backtrace: self.backtrace,
            channel: self.channel,
            code: self.code@,
            crate_type: self.crate_type@,
            edition: self.edition@,
            mode: self.mode@,
            tests: self.tests,
        }
    }
}

/// `bin`.
pub open spec fn binary_crate() -> Seq<char> {
    seq!['b', 'i', 'n']
}

/// `2021`.
pub open spec fn latest_edition() -> Seq<char> {
    seq!['2', '0', '2', '1']
}

/// `debug`.
pub open spec fn debug_mode() -> Seq<char> {
    seq!['d', 'e', 'b', 'u', 'g']
}

/// A request for `code` with the fixed settings: stable channel, a binary crate,
/// the latest edition, a debug build, no tests and no backtrace.
pub open spec fn fixed_request(code: Seq<char>) -> RequestView {
    RequestView {
        backtrace: false,
        channel: Channel::Stable,
        code,
        crate_type: binary_crate(),
        edition: latest_edition(),
        mode: debug_mode(),
        tests: false,
    }
}

/// `body` as the whole body of `main`.
pub open spec fn eval_program(body: Seq<char>) -> Seq<char> {
    seq!['f', 'n', ' ', 'm', 'a', 'i', 'n', '(', ')', ' ', '{'] + body + seq!['}']
}

/// The result of a run in the sandbox.
#[derive(Debug, PartialEq, Eq)]
pub struct PlaygroundResponse {
    pub success: bool,
    pub stdout: String,
    pub stderr: String,
}

/// A run's result with the HTTP status it came with.
#[derive(Debug)]
pub struct Response {
    pub status_code: String,
    pub playground_response: PlaygroundResponse,
}

/// What the sandbox answers when it stores code for sharing.
#[derive(Debug, PartialEq, Eq)]
pub struct ShareResponse {
    pub id: String,
    pub url: String,
}

/// A run's result with the link to a shared copy of its code.
#[derive(Debug)]
pub struct PlaygroundAnswer {
    pub playground_answer: PlaygroundResponse,
    pub link: String,
}

/// The decimal digit `d`.
pub open spec fn digit_char(d: nat) -> char {
    if d == 0 {
        '0'
    } else if d == 1 {
        '1'
    } else if d == 2 {
        '2'
    } else if d == 3 {
        '3'
    } else if d == 4 {
        '4'
    } else if d == 5 {
        '5'
    } else if d == 6 {
        '6'
    } else if d == 7 {
        '7'
    } else if d == 8 {
        '8'
    } else {
        '9'
    }
}

/// `n` written in decimal, without leading zeros.
pub open spec fn decimal(n: nat) -> Seq<char>
    decreases n,
{
    if n < 10 {
        seq![digit_char(n)]
    } else {
        decimal(n / 10) + seq![digit_char(n % 10)]
    }
}

/// An HTTP status that reports success.
pub open spec fn is_success_status(status: u16) -> bool {
    200 <= status < 300
}

/// The cause given for a run that the sandbox answered with a failure status.
pub open spec fn status_cause(status: u16) -> Seq<char> {
    "the sandbox answered with HTTP status "@ + decimal(status as nat)
}

/// The error that carries `cause`.
pub open spec fn is_internal_error(e: RustyBotError, cause: Seq<char>) -> bool {
    match e {
        RustyBotError::InternalServerError(c) => c@ == cause,
        _ => false,
    }
}

/// The address of the run endpoint under `base`.
pub open spec fn execute_url_spec(base: Seq<char>) -> Seq<char> {
    base + "/execute"@
}

/// The address of the share endpoint under `base`.
pub open spec fn share_url_spec(base: Seq<char>) -> Seq<char> {
    base + "/meta/gist/"@
}

/// The public link to the shared copy `id` of the code of request `q`, with the
/// channel, mode and edition that ran it.
pub open spec fn share_link_spec(q: RequestView, id: Seq<char>) -> Seq<char> {
    "https://play.rust-lang.org/?version="@ + channel_name(q.channel) + "&mode="@ + q.mode
        + "&edition="@ + q.edition + "&gist="@ + id
}

fn digit_text(d: u16) -> (r: &'static str)
    requires
        d < 10,
    ensures
        r@ == seq![digit_char(d as nat)],
{
    proof {
        reveal_strlit("0");
        reveal_strlit("1");
        reveal_strlit("2");
        reveal_strlit("3");
        reveal_strlit("4");
        reveal_strlit("5");
        reveal_strlit("6");
        reveal_strlit("7");
        reveal_strlit("8");
        reveal_strlit("9");
    }
    let r = if d == 0 {
        "0"
    } else if d == 1 {
        "1"
    } else if d == 2 {
        "2"
    } else if d == 3 {
        "3"
    } else if d == 4 {
        "4"
    } else if d == 5 {
        "5"
    } else if d == 6 {
        "6"
    } else if d == 7 {
        "7"
    } else if d == 8 {
        "8"
    } else {
        "9"
    };
    assert(r@ =~= seq![digit_char(d as nat)]);
    r
}

/// `n` written in decimal.
pub fn decimal_string(n: u16) -> (r: String)
    ensures
        r@ == decimal(n as nat),
    decreases n,
{
    if n < 10 {
        String::from_str(digit_text(n))
    } else {
        let mut r = decimal_string(n / 10);
        r.append(digit_text(n % 10));
        r
    }
}

/// The run endpoint under the sandbox's base address.
pub fn execute_url(base: &str) -> (r: String)
    ensures
        r@ == execute_url_spec(base@),
{
    let mut r = String::from_str(base);
    r.append("/execute");
    r
}

/// The share endpoint under the sandbox's base address.
pub fn share_url(base: &str) -> (r: String)
    ensures
        r@ == share_url_spec(base@),
{
    let mut r = String::from_str(base);
    r.append("/meta/gist/");
    r
}

/// The outcome of a run, from the HTTP status of the answer and its body as parsed
/// (or the reason it could not be read or parsed). A failure status or an unreadable
/// body is an internal error; a run that failed is not.
pub fn execute_outcome(status: u16, body: Result<PlaygroundResponse, String>) -> (r: Result<
    Response,
    RustyBotError,
>)
    ensures
        !is_success_status(status) ==> (r matches Err(e) && is_internal_error(e, status_cause(status))),
        is_success_status(status) ==> match body {
            Err(cause) => r matches Err(e) && is_internal_error(e, cause@),
            Ok(p) => r matches Ok(res) && res.status_code@ == decimal(status as nat)
                && res.playground_response == p,
        },
{
    if status < 200 || status >= 300 {
        let mut cause = String::from_str("the sandbox answered with HTTP status ");
        cause.append(decimal_string(status).as_str());
        return Err(RustyBotError::InternalServerError(cause));
    }
    match body {
        Err(cause) => Err(RustyBotError::InternalServerError(cause)),
        Ok(p) => Ok(Response { status_code: decimal_string(status), playground_response: p }),
    }
}

/// The text with its HTML entities decoded.
pub uninterp spec fn entities_decoded(s: Seq<char>) -> Seq<char>;

/// Relies on html_escape::decode_html_entities: the decoded text depends on the
/// input alone, and a text without `&` comes back as it is.
#[verifier::external_body]
fn decode_entities(s: &str) -> (r: String)
    ensures
        r@ == entities_decoded(s@),
        (forall|i: int| 0 <= i < s@.len() ==> s@[i] != '&') ==> r@ == s@,
{
    html_escape::decode_html_entities(s).into_owned()
}

impl PlaygroundRequest {
    /// A request that runs `code` as a complete program.
    pub fn new(code: String) -> (r: Self)
        ensures
            r@ == fixed_request(code@),
    {
        proof {
            reveal_strlit("bin");
            reveal_strlit("2021");
            reveal_strlit("debug");
            assert("bin"@ =~= binary_crate());
            assert("2021"@ =~= latest_edition());
            assert("debug"@ =~= debug_mode());
        }
        Self {
            backtrace: false,
            channel: Channel::Stable,
            code,
            crate_type: String::from_str("bin"),
            edition: String::from_str("2021"),
            mode: String::from_str("debug"),
            tests: false,
        }
    }

    /// A request that runs `code` as the body of `main`.
    pub fn new_eval(code: String) -> (r: Self)
        ensures
            r@ == fixed_request(eval_program(code@)),
    {
        proof {
            reveal_strlit("fn main() {");
            reveal_strlit("}");
        }
        let mut program = String::from_str("fn main() {");
        program.append(code.as_str());
        program.append("}");
        assert(program@ =~= eval_program(code@));
        Self::new(program)
    }

    pub fn get_code(&self) -> (r: String)
        ensures
            r@ == self@.code,
    {
        self.code.clone()
    }

    pub fn get_channel(&self) -> (r: String)
        ensures
            r@ == channel_name(self@.channel),
    {
        self.channel.name()
    }

    pub fn get_edition(&self) -> (r: String)
        ensures
            r@ == self@.edition,
    {
        self.edition.clone()
    }

    pub fn get_crate_type(&self) -> (r: String)
        ensures
            r@ == self@.crate_type,
    {
        self.crate_type.clone()
    }

    pub fn get_mode(&self) -> (r: String)
        ensures
            r@ == self@.mode,
    {
        self.mode.clone()
    }

    pub fn get_backtrace(&self) -> (r: bool)
        ensures
            r == self@.backtrace,
    {
        self.backtrace
    }

    pub fn get_tests(&self) -> (r: bool)
        ensures
            r == self@.tests,
    {
        self.tests
    }

    /// The same request with the HTML entities in its code decoded.
    pub fn escape_html(&self) -> (r: Self)
        ensures
            r@ == (RequestView { code: entities_decoded(self@.code), ..self@ }),
    {
        Self {
            backtrace: self.backtrace,
            channel: self.channel,
            code: decode_entities(self.code.as_str()),
            crate_type: self.crate_type.clone(),
            edition: self.edition.clone(),
            mode: self.mode.clone(),
            tests: self.tests,
        }
    }

    /// The public link to the shared copy `id` of this request's code.
    pub fn share_link(&self, id: &str) -> (r: String)
        ensures
            r@ == share_link_spec(self@, id@),
    {
        let mut r = String::from_str("https://play.rust-lang.org/?version=");
        r.append(self.channel.name().as_str());
        r.append("&mode=");
        r.append(self.mode.as_str());
        r.append("&edition=");
        r.append(self.edition.as_str());
        r.append("&gist=");
        r.append(id);
        r
    }

    /// The share link for this request's code, from the share endpoint's answer as
    /// parsed (or the reason it could not be had).
    pub fn share_link_outcome(&self, body: Result<ShareResponse, String>) -> (r: Result<
        String,
        RustyBotError,
    >)
        ensures
            match body {
                Ok(s) => r matches Ok(link) && link@ == share_link_spec(self@, s.id@),
                Err(cause) => r matches Err(e) && is_internal_error(e, cause@),
            },
    {
        match body {
            Ok(s) => Ok(self.share_link(s.id.as_str())),
            Err(cause) => Err(RustyBotError::InternalServerError(cause)),
        }
    }
}

/// `p` occurs somewhere in `s`.
pub open spec fn contains(s: Seq<char>, p: Seq<char>) -> bool {
    exists|k: int| occurs_at(s, k, p)
}

/// The share link of a request's code names the channel, mode and edition of that
/// request: the ones its run used.
pub proof fn lemma_share_link_names_run_settings(q: RequestView, id: Seq<char>)
    ensures
        contains(share_link_spec(q, id), "version="@ + channel_name(q.channel) + "&"@),
        contains(share_link_spec(q, id), "&mode="@ + q.mode + "&"@),
        contains(share_link_spec(q, id), "&edition="@ + q.edition + "&"@),
{
    reveal_strlit("https://play.rust-lang.org/?version=");
    reveal_strlit("version=");
    reveal_strlit("&mode=");
    reveal_strlit("&edition=");
    reveal_strlit("&gist=");
    reveal_strlit("&");
    let link = share_link_spec(q, id);
    let ch = channel_name(q.channel);
    let k1: int = 28;
    assert(link.subrange(k1, k1 + 8 + ch.len() + 1) =~= "version="@ + ch + "&"@);
    assert(occurs_at(link, k1, "version="@ + ch + "&"@));
    let k2: int = 36 + ch.len() as int;
    assert(link.subrange(k2, k2 + 6 + q.mode.len() + 1) =~= "&mode="@ + q.mode + "&"@);
    assert(occurs_at(link, k2, "&mode="@ + q.mode + "&"@));
    let k3: int = k2 + 6 + q.mode.len() as int;
    assert(link.subrange(k3, k3 + 9 + q.edition.len() + 1) =~= "&edition="@ + q.edition + "&"@);
    assert(occurs_at(link, k3, "&edition="@ + q.edition + "&"@));
}

} // verus!

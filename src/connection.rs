use crate::config::Config;
use crate::error::{AppError, Error};
use vstd::prelude::*;
use vstd::string::StringExecFns;

verus! {

#[verifier::external_type_specification]
#[verifier::external_body]
pub struct ExUrl(url::Url);

#[verifier::external_type_specification]
#[verifier::external_body]
pub struct ExParseError(url::ParseError);

/// Whether the text is an absolute URL that the URL parser accepts.
pub uninterp spec fn url_parses(s: Seq<char>) -> bool;

/// Relies on `url::Url::parse`: the text either parses into a URL or is refused
/// with a parse error, depending on the text alone.
#[verifier::external_body]
fn parse_url(s: &str) -> (r: Result<url::Url, url::ParseError>)
    ensures
        r is Ok <==> url_parses(s@),
{
    url::Url::parse(s)
}

/// The kind of a command.
#[derive(Debug, Clone, Copy, PartialEq, Eq, Structural)]
pub enum CmdType {
    Get,
    Put,
}

/// The argument of a write command.
#[derive(Debug, Clone, Copy, PartialEq, Eq, Structural)]
pub struct CmdCtx {
    pub value: u8,
}

/// A command sent to the device.
#[derive(Debug, Clone, Copy, PartialEq, Eq, Structural)]
pub struct Request {
    pub cmd_type: CmdType,
    pub cmd_num: u8,
    pub cmd_ctx: Option<CmdCtx>,
}

/// The device's reply to a command.
#[derive(Debug, Clone, Copy, PartialEq, Eq, Structural)]
pub struct Response {
    pub res_code: u16,
    pub cmd_type: CmdType,
    pub cmd_num: u8,
    pub data: Option<u8>,
}

/// The decimal digit `d` as a character.
pub open spec fn digit_char(d: nat) -> char {
    if d == 0 { '0' }
    else if d == 1 { '1' }
    else if d == 2 { '2' }
    else if d == 3 { '3' }
    else if d == 4 { '4' }
    else if d == 5 { '5' }
    else if d == 6 { '6' }
    else if d == 7 { '7' }
    else if d == 8 { '8' }
    else { '9' }
}

/// The decimal notation of `n`, without leading zeros.
pub open spec fn decimal(n: nat) -> Seq<char>
    decreases n,
{
    if n < 10 {
        seq![digit_char(n)]
    } else {
        decimal(n / 10) + seq![digit_char(n % 10)]
    }
}

/// The wire code of a command kind.
pub open spec fn type_code(t: CmdType) -> nat {
    match t {
        CmdType::Get => 0,
        CmdType::Put => 1,
    }
}

/// The compact JSON text of a request, fields in the order
/// `cmdType`, `cmdNum`, then `cmdCtx` when present.
pub open spec fn request_json(r: Request) -> Seq<char> {
    let head = "{\"cmdType\":"@ + decimal(type_code(r.cmd_type)) + ",\"cmdNum\":"@ + decimal(
        r.cmd_num as nat,
    );
    match r.cmd_ctx {
        None => head + "}"@,
        Some(ctx) => head + ",\"cmdCtx\":{\"value\":"@ + decimal(ctx.value as nat) + "}}"@,
    }
}

/// The text of one decimal digit.
fn digit_str(d: u8) -> (s: &'static str)
    requires
        d < 10,
    ensures
        s@ == seq![digit_char(d as nat)],
{
    proof {
        reveal_strlit("0");
        reveal_strlit("1");
        reveal_strlit("2");
        reveal_strlit("3");
        reveal_strlit("4");
        reveal_strlit("5");
        reveal_strlit("6");
        reveal_strlit("7");
        reveal_strlit("8");
        reveal_strlit("9");
    }
    match d {
        0 => "0",
        1 => "1",
        2 => "2",
        3 => "3",
        4 => "4",
        5 => "5",
        6 => "6",
        7 => "7",
        8 => "8",
        _ => "9",
    }
}

/// Appends the decimal notation of `n`.
fn append_decimal(out: &mut String, n: u8)
    ensures
        final(out)@ == old(out)@ + decimal(n as nat),
{
    if n >= 100 {
        out.append(digit_str(n / 100));
        out.append(digit_str(n / 10 % 10));
        out.append(digit_str(n % 10));
        proof {
            let m = (n / 10) as nat;
            assert(m / 10 == n / 100);
            assert(decimal(m / 10) == seq![digit_char(m / 10)]);
            assert(decimal(m) == decimal(m / 10) + seq![digit_char(m % 10)]);
            assert(decimal(n as nat) == decimal(m) + seq![digit_char((n % 10) as nat)]);
        }
        assert(out@ =~= old(out)@ + decimal(n as nat));
    } else if n >= 10 {
        out.append(digit_str(n / 10));
        out.append(digit_str(n % 10));
        assert(decimal((n / 10) as nat) == seq![digit_char((n / 10) as nat)]);
        assert(out@ =~= old(out)@ + decimal(n as nat));
    } else {
        out.append(digit_str(n));
        assert(out@ =~= old(out)@ + decimal(n as nat));
    }
}

impl Request {
    /// A read of channel `num`.
    pub fn get(num: u8) -> (r: Request)
        ensures
            r == (Request { cmd_type: CmdType::Get, cmd_num: num, cmd_ctx: None }),
    {
        Request { cmd_type: CmdType::Get, cmd_num: num, cmd_ctx: None }
    }

    /// A write of `value` to channel `num`.
    pub fn set(num: u8, value: u8) -> (r: Request)
        ensures
            r == (Request { cmd_type: CmdType::Put, cmd_num: num, cmd_ctx: Some(CmdCtx { value }) }),
    {
        Request { cmd_type: CmdType::Put, cmd_num: num, cmd_ctx: Some(CmdCtx { value }) }
    }

    /// The request as one JSON text message.
    pub fn to_json(&self) -> (r: String)
        ensures
            r@ == request_json(*self),
    {
        let mut out = String::from_str("{\"cmdType\":");
        let code: u8 = match self.cmd_type {
            CmdType::Get => 0,
            CmdType::Put => 1,
        };
        append_decimal(&mut out, code);
        out.append(",\"cmdNum\":");
        append_decimal(&mut out, self.cmd_num);
        match self.cmd_ctx {
            None => {
                out.append("}");
            },
            Some(ctx) => {
                out.append(",\"cmdCtx\":{\"value\":");
                append_decimal(&mut out, ctx.value);
                out.append("}}");
            },
        }
        assert(out@ =~= request_json(*self));
        out
    }
}

/// Framing messages the device sends right after the transport opens.
pub const GREETING_FRAMES: u8 = 2;

/// Where a connection stands in its exchange with the device.
#[derive(Debug, Clone, Copy, PartialEq, Eq, Structural)]
pub enum Phase {
    /// So many greeting frames are still to be read and dropped.
    Greeting(u8),
    /// No request is outstanding.
    Ready,
    /// A request of this kind was sent and its reply not yet read.
    Awaiting(CmdType),
}

/// The phase after one more greeting frame has been dropped.
pub open spec fn after_greeting_frame(p: Phase) -> Phase {
    match p {
        Phase::Greeting(n) => if n > 1 { Phase::Greeting((n - 1) as u8) } else { Phase::Ready },
        _ => p,
    }
}

/// The outcome of a read request, given the device's reply.
pub open spec fn get_outcome(reply: Response) -> Result<u8, Error> {
    match reply.data {
        Some(v) => Ok(v),
        None => Err(Error::App(AppError::MissingData)),
    }
}

/// The protocol side of a connection to the device: its address and the
/// one-request-at-a-time discipline. The caller owns the socket, sends the
/// texts this type builds and hands back the replies it reads.
#[derive(Debug)]
pub struct Connection {
    url: url::Url,
    phase: Phase,
}

impl Connection {
    /// Where the exchange stands.
    pub closed spec fn phase(&self) -> Phase {
        self.phase
    }

    /// Parses the configured server address; the new connection expects the
    /// greeting frames first.
    pub fn connect(config: &Config) -> (r: Result<Connection, Error>)
        ensures
            r is Ok <==> url_parses(config.clock.server@),
            r is Err ==> r->Err_0 is Url,
            r is Ok ==> r->Ok_0.phase() == Phase::Greeting(GREETING_FRAMES),
    {
        match parse_url(config.clock.server.as_str()) {
            Ok(url) => Ok(Connection { url, phase: Phase::Greeting(GREETING_FRAMES) }),
            Err(e) => Err(Error::Url(e)),
        }
    }

    /// The device's address.
    pub fn url(&self) -> &url::Url {
        &self.url
    }

    /// Whether greeting frames are still to be dropped.
    pub fn in_greeting(&self) -> (r: bool)
        ensures
            r == self.phase() is Greeting,
    {
        match self.phase {
            Phase::Greeting(_) => true,
            _ => false,
        }
    }

    /// Whether a request can be sent.
    pub fn is_ready(&self) -> (r: bool)
        ensures
            r == (self.phase() == Phase::Ready),
    {
        match self.phase {
            Phase::Ready => true,
            _ => false,
        }
    }

    /// Records that one greeting frame was read and dropped.
    pub fn discard_greeting_frame(&mut self)
        requires
            old(self).phase() is Greeting,
        ensures
            final(self).phase() == after_greeting_frame(old(self).phase()),
    {
        match self.phase {
            Phase::Greeting(n) => {
                if n > 1 {
                    self.phase = Phase::Greeting(n - 1);
                } else {
                    self.phase = Phase::Ready;
                }
            },
            _ => {},
        }
    }

    /// Starts a read of the configured channel: the text to send.
    pub fn get(&mut self, config: &Config) -> (r: String)
        requires
            old(self).phase() == Phase::Ready,
        ensures
            r@ == request_json(
                Request { cmd_type: CmdType::Get, cmd_num: config.brightness.num, cmd_ctx: None },
            ),
            final(self).phase() == Phase::Awaiting(CmdType::Get),
    {
        self.phase = Phase::Awaiting(CmdType::Get);
        Request::get(config.brightness.num).to_json()
    }

    /// Completes a read with the device's reply: the value it carries, or
    /// `MissingData` when it carries none.
    pub fn get_reply(&mut self, reply: &Response) -> (r: Result<u8, Error>)
        requires
            old(self).phase() == Phase::Awaiting(CmdType::Get),
        ensures
            r == get_outcome(*reply),
            final(self).phase() == Phase::Ready,
    {
        self.phase = Phase::Ready;
        match reply.data {
            Some(v) => Ok(v),
            None => Err(Error::App(AppError::MissingData)),
        }
    }

    /// Starts a write of `value` to the configured channel: the text to send.
    pub fn set(&mut self, config: &Config, value: u8) -> (r: String)
        requires
            old(self).phase() == Phase::Ready,
        ensures
            r@ == request_json(
                Request {
                    cmd_type: CmdType::Put,
                    cmd_num: config.brightness.num,
                    cmd_ctx: Some(CmdCtx { value }),
                },
            ),
            final(self).phase() == Phase::Awaiting(CmdType::Put),
    {
        self.phase = Phase::Awaiting(CmdType::Put);
        Request::set(config.brightness.num, value).to_json()
    }

    /// Completes a write with the device's reply: whether the device accepted it.
    pub fn set_reply(&mut self, reply: &Response) -> (r: bool)
        requires
            old(self).phase() == Phase::Awaiting(CmdType::Put),
        ensures
            r == (reply.res_code == 200),
            final(self).phase() == Phase::Ready,
    {
        self.phase = Phase::Ready;
        reply.res_code == 200
    }
}

} // verus!

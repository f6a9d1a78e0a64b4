//! GPRS bearer and HTTP requests.
//!
//! The bearer is probed with `AT+SAPBR=2,1`, whose `+SAPBR: c,s,...`
//! answer carries the connection status in its second field; opening,
//! closing and APN configuration are `OK`-acknowledged commands. The
//! multi-step HTTP request flow itself lives in [`crate::http`].

use vstd::prelude::*;

use crate::error::Error;
use crate::error_marker;
use crate::http;
use crate::resolver::{ResolvedValue, ResolverKind};
use crate::serial_port::{
    process_view, CommandRequest, CommandRequestView, CommandSequence, TaskPriority,
    UartOp,
};
use crate::text::{field_u8, fields_of, first_char_from, first_sub_from, has_sub};
use crate::text;

verus! {

/// The access-point configuration the bearer is opened with.
pub struct ApnConfig {
    pub apn: String,
    pub user: String,
    pub password: String,
}

/// The HTTP request method, as far as the modem supports one.
#[derive(Clone, Copy, Debug, PartialEq, Eq, Structural)]
pub enum RequestMethod {
    GET,
    POST,
    HEAD,
}

/// The encoding of an HTTP request body.
#[derive(Clone, Copy, Debug, PartialEq, Eq, Structural)]
pub enum ContentType {
    FormUrlencoded,
    Json,
}

/// The tag that opens the bearer status report.
pub open spec fn sapbr_marker() -> Seq<char> {
    "+SAPBR: "@
}

/// What the bearer-status resolver returns: `GprsNoConnection` once the
/// failure terminator appears, else the second comma-separated field of
/// the first `+SAPBR: ` line read as a number; anything else is not yet
/// resolved.
pub open spec fn conn_status_resolution(text: Seq<char>) -> Result<u8, Error> {
    if has_sub(text, error_marker()) {
        Err(Error::GprsNoConnection)
    } else {
        match first_sub_from(text, sapbr_marker(), 0) {
            Some(k) => {
                let start = k + sapbr_marker().len();
                let stop = match first_char_from(text, '\n', start) {
                    Some(e) => e,
                    None => text.len() as int,
                };
                if 0 <= start <= stop <= text.len() {
                    let fs = fields_of(text.subrange(start, stop));
                    if fs.len() >= 2 {
                        match field_u8(fs[1]) {
                            Some(v) => Ok(v as u8),
                            None => Err(Error::NotResolved),
                        }
                    } else {
                        Err(Error::NotResolved)
                    }
                } else {
                    Err(Error::NotResolved)
                }
            },
            None => Err(Error::NotResolved),
        }
    }
}

/// Reads a `+SAPBR` bearer status report.
pub fn parse_conn_status(text: &str) -> (r: Result<u8, Error>)
    ensures
        r == conn_status_resolution(text@),
{
    if crate::error_check(text) {
        return Err(Error::GprsNoConnection);
    }
    proof {
        reveal_strlit("+SAPBR: ");
    }
    let n = text.unicode_len();
    let k = match text::find_sub_from(text, "+SAPBR: ", 0) {
        Some(k) => k,
        None => {
            return Err(Error::NotResolved);
        },
    };
    proof {
        text::lemma_first_sub_from(text@, sapbr_marker(), 0);
    }
    let start = k + 8;
    let stop = match text::find_char_from(text, '\n', start) {
        Some(e) => e,
        None => n,
    };
    proof {
        text::lemma_first_char_from(text@, '\n', start as int);
    }
    let line = text.substring_char(start, stop);
    let fields = text::split_commas(line, 0);
    proof {
        assert(line@ =~= text@.subrange(start as int, stop as int));
        assert(fields.deep_view() == fields_of(text@.subrange(
            start as int,
            stop as int,
        )));
    }
    if fields.len() < 2 {
        return Err(Error::NotResolved);
    }
    match text::parse_field_u8(fields[1].as_str()) {
        Some(v) => Ok(v),
        None => Err(Error::NotResolved),
    }
}

// ---------------------------------------------------------------------------
// Requests
// ---------------------------------------------------------------------------
/// An HTTP request as the driver takes it: the body (and, for a GET, the
/// query) already encoded as text, the URL as it should reach the modem.
/// The modem speaks plain HTTP only.
pub struct Request {
    pub content_type: Option<ContentType>,
    pub data: String,
    pub headers: Option<String>,
    pub method: RequestMethod,
    pub url: String,
}

/// The mathematical image of a [`Request`].
pub struct RequestView {
    pub content_type: Option<ContentType>,
    pub data: Seq<char>,
    pub headers: Option<Seq<char>>,
    pub method: RequestMethod,
    pub url: Seq<char>,
}

impl View for Request {
    type V = RequestView;

    open spec fn view(&self) -> RequestView {
        RequestView {
            content_type: self.content_type,
            data: self.data@,
            headers: match self.headers {
                Some(h) => Some(h@),
                None => None,
            },
            method: self.method,
            url: self.url@,
        }
    }
}

/// The bearer-closing command (`AT+CGATT=0`).
pub open spec fn conn_close_view() -> CommandRequestView {
    process_view("AT+CGATT=0\n"@, ResolverKind::ConnClose, Some(10000u64))
}

/// Builds the bearer-closing command.
pub fn conn_close_request() -> (r: CommandRequest)
    ensures
        r@ == conn_close_view(),
{
    CommandRequest {
        op: UartOp::Process,
        cmd: String::from_str("AT+CGATT=0\n"),
        resolver: ResolverKind::ConnClose,
        timeout_ms: Some(10000),
        priority: TaskPriority::NORMAL,
    }
}

/// The `i`-th APN configuration command: the connection type, then the
/// APN name, user and password, each quoted as the modem expects.
pub open spec fn apn_view_at(
    apn: Seq<char>,
    user: Seq<char>,
    password: Seq<char>,
    i: int,
) -> CommandRequestView {
    if i == 0 {
        process_view(
            "AT+SAPBR=3,1,Contype,GPRS\n"@,
            ResolverKind::ApnSet,
            None,
        )
    } else if i == 1 {
        process_view(
            "AT+SAPBR=3,1,APN,\""@ + apn + "\"\n"@,
            ResolverKind::ApnSet,
            None,
        )
    } else if i == 2 {
        process_view(
            "AT+SAPBR=3,1,USER,\""@ + user + "\"\n"@,
            ResolverKind::ApnSet,
            None,
        )
    } else {
        process_view(
            "AT+SAPBR=3,1,PWD,\""@ + password + "\"\n"@,
            ResolverKind::ApnSet,
            None,
        )
    }
}

fn apn_quoted(prefix: &str, value: &str) -> (r: CommandRequest)
    ensures
        r@ == (CommandRequestView {
            op: UartOp::Process,
            cmd: prefix@ + value@ + "\"\n"@,
            resolver: ResolverKind::ApnSet,
            timeout_ms: None,
            priority: TaskPriority::NORMAL,
        }),
{
    let mut cmd = String::from_str(prefix);
    cmd.append(value);
    cmd.append("\"\n");
    CommandRequest {
        op: UartOp::Process,
        cmd,
        resolver: ResolverKind::ApnSet,
        timeout_ms: None,
        priority: TaskPriority::NORMAL,
    }
}

// ---------------------------------------------------------------------------
// The HTTP request flow
// ---------------------------------------------------------------------------
/// Where an HTTP request flow stands.
#[derive(Clone, Copy, Debug, PartialEq, Eq, Structural)]
pub enum HttpPhase {
    /// The guarding `HTTPTERM`, run first in case an earlier session was
    /// left open; its outcome — success or error — is discarded.
    GuardTerminate,
    /// Probing the bearer status.
    ConnStatus,
    /// Opening the bearer, when the probe reported it closed.
    ConnOpen,
    /// The session-opening commands, one per index.
    Init,
    /// The three body-upload steps of a POST.
    Data,
    /// `HTTPACTION`.
    Action,
    /// `HTTPREAD`.
    Read,
    /// The closing `HTTPTERM`.
    Terminate,
    /// Closing the bearer; always runs, whatever came before.
    Closing,
    /// The flow has its outcome.
    Done,
}

/// The whole HTTP request as one state machine, run under a single task
/// so that no other task's bytes interleave with its steps. Each phase
/// names the command to issue; the outcome of that command drives the
/// transition. The first failing step decides the flow's error; the
/// bearer is closed at the end whatever happened, and the closing step's
/// own error replaces the outcome only when everything before succeeded.
pub struct HttpFlow {
    pub phase: HttpPhase,
    pub req: Request,
    pub idx: usize,
    pub inner: Option<Result<String, Error>>,
}

impl HttpFlow {
    /// The flow's structural invariant.
    pub open spec fn wf(self) -> bool {
        &&& self.phase is Init ==> 0 <= self.idx < http::init_count(self.req@)
        &&& self.phase is Data ==> self.idx < 3 && self.req@.method is POST
        &&& self.phase is Terminate ==> match self.inner {
            Some(r) => r is Ok,
            None => false,
        }
        &&& self.phase is Closing ==> self.inner is Some
        &&& self.phase is Done ==> self.inner is Some
        &&& (self.phase is GuardTerminate || self.phase is ConnStatus
            || self.phase is ConnOpen || self.phase is Init || self.phase is Data
            || self.phase is Action || self.phase is Read) ==> self.inner is None
    }

    /// The command the flow issues in its current phase.
    pub open spec fn request_view(self) -> CommandRequestView {
        match self.phase {
            HttpPhase::GuardTerminate => http::terminate_view(),
            HttpPhase::ConnStatus => process_view(
                "AT+SAPBR=2,1\n"@,
                ResolverKind::ConnStatus,
                None,
            ),
            HttpPhase::ConnOpen => process_view(
                "AT+SAPBR=1,1\n"@,
                ResolverKind::ConnOpen,
                Some(20000u64),
            ),
            HttpPhase::Init => http::init_view_at(self.req@, self.idx as int),
            HttpPhase::Data => http::data_view_at(self.req@, self.idx as int),
            HttpPhase::Action => http::action_view(self.req@.method),
            HttpPhase::Read => http::read_view(),
            HttpPhase::Terminate => http::terminate_view(),
            HttpPhase::Closing => conn_close_view(),
            HttpPhase::Done => http::terminate_view(),
        }
    }

    /// Builds the command for the current phase.
    pub fn current_request(&self) -> (r: CommandRequest)
        requires
            self.wf(),
            !(self.phase is Done),
        ensures
            r@ == self.request_view(),
    {
        match self.phase {
            HttpPhase::GuardTerminate => http::terminate(),
            HttpPhase::ConnStatus => CommandRequest {
                op: UartOp::Process,
                cmd: String::from_str("AT+SAPBR=2,1\n"),
                resolver: ResolverKind::ConnStatus,
                timeout_ms: None,
                priority: TaskPriority::NORMAL,
            },
            HttpPhase::ConnOpen => CommandRequest {
                op: UartOp::Process,
                cmd: String::from_str("AT+SAPBR=1,1\n"),
                resolver: ResolverKind::ConnOpen,
                timeout_ms: Some(20000),
                priority: TaskPriority::NORMAL,
            },
            HttpPhase::Init => http::init(&self.req, self.idx),
            HttpPhase::Data => http::data(&self.req, self.idx),
            HttpPhase::Action => http::action(self.req.method),
            HttpPhase::Read => http::read(),
            HttpPhase::Terminate => http::terminate(),
            _ => conn_close_request(),
        }
    }

    /// Whether the flow has reached its outcome.
    pub fn is_done(&self) -> (b: bool)
        ensures
            b == (self.phase is Done),
    {
        match self.phase {
            HttpPhase::Done => true,
            _ => false,
        }
    }

    /// Takes the finished flow's outcome: the `HTTPREAD` response text, or
    /// the first failing step's error — with the bearer-closing error in
    /// its place only when the request itself succeeded.
    pub fn outcome(self) -> (r: Result<String, Error>)
        requires
            self.wf(),
            self.phase is Done,
        ensures
            self.inner == Some(r),
    {
        match self.inner {
            Some(r) => r,
            None => {
                proof {
                    assert(false);
                }
                Err(Error::NotResolved)
            },
        }
    }

    /// Feeds the outcome of the command just run and moves the flow on.
    pub fn advance(&mut self, res: Result<ResolvedValue, Error>)
        requires
            old(self).wf(),
            !(old(self).phase is Done),
        ensures
            final(self).wf(),
            final(self).req == old(self).req,
            match old(self).phase {
                HttpPhase::GuardTerminate => final(self).phase is ConnStatus
                    && final(self).inner is None,
                HttpPhase::ConnStatus => match res {
                    Ok(ResolvedValue::Byte(s)) => if s == 3 {
                        final(self).phase is ConnOpen && final(self).inner is None
                    } else {
                        final(self).phase is Init && final(self).idx == 0 && final(self).inner is None
                    },
                    Ok(_) => final(self).phase is Closing && final(self).inner
                        == Some(
                        Err::<String, Error>(Error::GprsHttpRequestFailed),
                    ),
                    Err(e) => final(self).phase is Closing && final(self).inner
                        == Some(Err::<String, Error>(e)),
                },
                HttpPhase::ConnOpen => match res {
                    Ok(_) => final(self).phase is Init && final(self).idx == 0
                        && final(self).inner is None,
                    Err(e) => final(self).phase is Closing && final(self).inner
                        == Some(Err::<String, Error>(e)),
                },
                HttpPhase::Init => match res {
                    Ok(_) => if old(self).idx + 1 == http::init_count(
                        old(self).req@,
                    ) {
                        if old(self).req@.method is POST {
                            final(self).phase is Data && final(self).idx == 0
                                && final(self).inner is None
                        } else {
                            final(self).phase is Action && final(self).inner
                                is None
                        }
                    } else {
                        final(self).phase is Init && final(self).idx == old(
                            self,
                        ).idx + 1 && final(self).inner is None
                    },
                    Err(e) => final(self).phase is Closing && final(self).inner
                        == Some(Err::<String, Error>(e)),
                },
                HttpPhase::Data => match res {
                    Ok(_) => if old(self).idx + 1 == 3 {
                        final(self).phase is Action && final(self).inner is None
                    } else {
                        final(self).phase is Data && final(self).idx == old(
                            self,
                        ).idx + 1 && final(self).inner is None
                    },
                    Err(e) => final(self).phase is Closing && final(self).inner
                        == Some(Err::<String, Error>(e)),
                },
                HttpPhase::Action => match res {
                    Ok(_) => final(self).phase is Read && final(self).inner
                        is None,
                    Err(e) => final(self).phase is Closing && final(self).inner
                        == Some(Err::<String, Error>(e)),
                },
                HttpPhase::Read => match res {
                    Ok(ResolvedValue::Text(s)) => final(self).phase is Terminate
                        && final(self).inner == Some(Ok::<String, Error>(s)),
                    Ok(_) => final(self).phase is Closing && final(self).inner
                        == Some(
                        Err::<String, Error>(Error::GprsHttpRequestFailed),
                    ),
                    Err(e) => final(self).phase is Closing && final(self).inner
                        == Some(Err::<String, Error>(e)),
                },
                HttpPhase::Terminate => match res {
                    Ok(_) => final(self).phase is Closing && final(self).inner
                        == old(self).inner,
                    Err(e) => final(self).phase is Closing && final(self).inner
                        == Some(Err::<String, Error>(e)),
                },
                HttpPhase::Closing => final(self).phase is Done && match res {
                    Ok(_) => final(self).inner == old(self).inner,
                    Err(e) => match old(self).inner {
                        Some(Ok(_)) => final(self).inner == Some(
                            Err::<String, Error>(e),
                        ),
                        _ => final(self).inner == old(self).inner,
                    },
                },
                HttpPhase::Done => false,
            },
    {
        match self.phase {
            HttpPhase::GuardTerminate => {
                self.phase = HttpPhase::ConnStatus;
            },
            HttpPhase::ConnStatus => match res {
                Ok(ResolvedValue::Byte(s)) => {
                    if s == 3 {
                        self.phase = HttpPhase::ConnOpen;
                    } else {
                        self.idx = 0;
                        self.phase = HttpPhase::Init;
                    }
                },
                Ok(_) => {
                    self.inner = Some(Err(Error::GprsHttpRequestFailed));
                    self.phase = HttpPhase::Closing;
                },
                Err(e) => {
                    self.inner = Some(Err(e));
                    self.phase = HttpPhase::Closing;
                },
            },
            HttpPhase::ConnOpen => match res {
                Ok(_) => {
                    self.idx = 0;
                    self.phase = HttpPhase::Init;
                },
                Err(e) => {
                    self.inner = Some(Err(e));
                    self.phase = HttpPhase::Closing;
                },
            },
            HttpPhase::Init => match res {
                Ok(_) => {
                    let total: usize = 3 + (if self.req.headers.is_some() {
                        1
                    } else {
                        0
                    }) + (match self.req.method {
                        RequestMethod::POST => 1,
                        _ => 0,
                    });
                    if self.idx + 1 == total {
                        match self.req.method {
                            RequestMethod::POST => {
                                self.idx = 0;
                                self.phase = HttpPhase::Data;
                            },
                            _ => {
                                self.phase = HttpPhase::Action;
                            },
                        }
                    } else {
                        self.idx = self.idx + 1;
                    }
                },
                Err(e) => {
                    self.inner = Some(Err(e));
                    self.phase = HttpPhase::Closing;
                },
            },
            HttpPhase::Data => match res {
                Ok(_) => {
                    if self.idx + 1 == 3 {
                        self.phase = HttpPhase::Action;
                    } else {
                        self.idx = self.idx + 1;
                    }
                },
                Err(e) => {
                    self.inner = Some(Err(e));
                    self.phase = HttpPhase::Closing;
                },
            },
            HttpPhase::Action => match res {
                Ok(_) => {
                    self.phase = HttpPhase::Read;
                },
                Err(e) => {
                    self.inner = Some(Err(e));
                    self.phase = HttpPhase::Closing;
                },
            },
            HttpPhase::Read => match res {
                Ok(ResolvedValue::Text(s)) => {
                    self.inner = Some(Ok(s));
                    self.phase = HttpPhase::Terminate;
                },
                Ok(_) => {
                    self.inner = Some(Err(Error::GprsHttpRequestFailed));
                    self.phase = HttpPhase::Closing;
                },
                Err(e) => {
                    self.inner = Some(Err(e));
                    self.phase = HttpPhase::Closing;
                },
            },
            HttpPhase::Terminate => match res {
                Ok(_) => {
                    self.phase = HttpPhase::Closing;
                },
                Err(e) => {
                    self.inner = Some(Err(e));
                    self.phase = HttpPhase::Closing;
                },
            },
            HttpPhase::Closing => match res {
                Ok(_) => {
                    self.phase = HttpPhase::Done;
                },
                Err(e) => {
                    let replace = match &self.inner {
                        Some(Ok(_)) => true,
                        _ => false,
                    };
                    if replace {
                        self.inner = Some(Err(e));
                    }
                    self.phase = HttpPhase::Done;
                },
            },
            HttpPhase::Done => {},
        }
    }
}

// ---------------------------------------------------------------------------
// The GPRS feature
// ---------------------------------------------------------------------------
/// The GPRS feature: bearer management and HTTP requests.
pub struct GPRS {
}

impl GPRS {
    /// The GPRS feature handle.
    pub fn new() -> (r: GPRS) {
        GPRS {  }
    }

    /// Plans an HTTP request: the whole [`HttpFlow`], to be run under one
    /// normal-priority task.
    pub fn request(&self, req: Request) -> (r: HttpFlow)
        ensures
            r.wf(),
            r.phase is GuardTerminate,
            r.req == req,
            r.inner is None,
    {
        HttpFlow { phase: HttpPhase::GuardTerminate, req, idx: 0, inner: None }
    }

    /// Plans the APN configuration: the four `SAPBR` profile commands in
    /// order, run under one normal-priority task.
    pub fn init(&self, apn_config: ApnConfig) -> (r: CommandSequence)
        ensures
            r.wf(),
            r.next == 0,
            r.outcome is None,
            r.steps@.len() == 4,
            forall|i: int|
                0 <= i < 4 ==> (#[trigger] r.steps@[i])@ == apn_view_at(
                    apn_config.apn@,
                    apn_config.user@,
                    apn_config.password@,
                    i,
                ),
    {
        let mut steps: Vec<CommandRequest> = Vec::new();
        steps.push(
            CommandRequest {
                op: UartOp::Process,
                cmd: String::from_str("AT+SAPBR=3,1,Contype,GPRS\n"),
                resolver: ResolverKind::ApnSet,
                timeout_ms: None,
                priority: TaskPriority::NORMAL,
            },
        );
        steps.push(apn_quoted("AT+SAPBR=3,1,APN,\"", apn_config.apn.as_str()));
        steps.push(apn_quoted("AT+SAPBR=3,1,USER,\"", apn_config.user.as_str()));
        steps.push(
            apn_quoted("AT+SAPBR=3,1,PWD,\"", apn_config.password.as_str()),
        );
        proof {
            assert forall|i: int|
                0 <= i < 4 implies (#[trigger] steps@[i])@ == apn_view_at(
                apn_config.apn@,
                apn_config.user@,
                apn_config.password@,
                i,
            ) by {
                assert((steps@[1])@.cmd =~= "AT+SAPBR=3,1,APN,\""@
                    + apn_config.apn@ + "\"\n"@);
                assert((steps@[2])@.cmd =~= "AT+SAPBR=3,1,USER,\""@
                    + apn_config.user@ + "\"\n"@);
                assert((steps@[3])@.cmd =~= "AT+SAPBR=3,1,PWD,\""@
                    + apn_config.password@ + "\"\n"@);
            }
        }
        CommandSequence::new(steps)
    }

    /// Plans the bearer-closing command, run under one normal-priority
    /// task.
    pub fn close_connection(&self) -> (r: CommandRequest)
        ensures
            r@ == conn_close_view(),
    {
        conn_close_request()
    }
}

} // verus!

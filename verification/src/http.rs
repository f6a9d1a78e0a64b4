//! The modem's HTTP command set.
//!
//! An HTTP request is a fixed sequence of `AT+HTTP...` commands; this
//! module knows their exact text and the resolvers for their answers. The
//! sequencing itself — which command follows which outcome — is the
//! [`HttpFlow`] state machine in [`crate::gprs`].

use vstd::prelude::*;

use crate::error::Error;
use crate::gprs::{ContentType, Request, RequestMethod, RequestView};
use crate::resolver::ResolverKind;
use crate::serial_port::{
    process_request, process_view, CommandRequest, CommandRequestView, TaskPriority,
    UartOp,
};
use crate::text::{first_char_from, has_sub};
use crate::{error_marker, ok_marker, ResolverReturn};
use crate::text;

verus! {

/// The prompt after which the request body may be uploaded.
pub open spec fn download_marker() -> Seq<char> {
    "\r\nDOWNLOAD\r\n"@
}

/// The tag that reports the outcome of `HTTPACTION`.
pub open spec fn action_marker() -> Seq<char> {
    "+HTTPACTION:"@
}

/// What an HTTP-step resolver returns: the request-failure error once the
/// failure terminator appears, success once `pattern` stands in the text,
/// and not-yet-resolved otherwise.
pub open spec fn http_step_resolution(text: Seq<char>, pattern: Seq<char>) -> Result<
    (),
    Error,
> {
    if has_sub(text, error_marker()) {
        Err(Error::GprsHttpRequestFailed)
    } else if has_sub(text, pattern) {
        Ok(())
    } else {
        Err(Error::NotResolved)
    }
}

/// What the `HTTPREAD` resolver returns: the whole response text once the
/// success terminator has arrived.
pub open spec fn http_read_resolution(text: Seq<char>) -> Result<Seq<char>, Error> {
    if has_sub(text, error_marker()) {
        Err(Error::GprsHttpRequestFailed)
    } else if has_sub(text, ok_marker()) {
        Ok(text)
    } else {
        Err(Error::NotResolved)
    }
}

/// The shared HTTP-step resolver, waiting for `pattern`.
pub fn http_match_resolver(result: &str, pattern: &str) -> (r: ResolverReturn<()>)
    ensures
        r == http_step_resolution(result@, pattern@),
{
    if crate::error_check(result) {
        return Err(Error::GprsHttpRequestFailed);
    }
    match text::contains_sub(result, pattern) {
        true => Ok(()),
        false => Err(Error::NotResolved),
    }
}

/// The resolver for the plainly `OK`-acknowledged HTTP steps.
pub fn http_request_resolver(result: String) -> (r: ResolverReturn<()>)
    ensures
        r == http_step_resolution(result@, ok_marker()),
{
    http_match_resolver(result.as_str(), "\r\nOK\r\n")
}

/// The resolver for the `HTTPREAD` response text.
pub fn http_read_resolver(result: String) -> (r: ResolverReturn<String>)
    ensures
        match r {
            Ok(s) => http_read_resolution(result@) == Ok::<Seq<char>, Error>(s@),
            Err(e) => http_read_resolution(result@) == Err::<Seq<char>, Error>(e),
        },
{
    if crate::error_check(result.as_str()) {
        return Err(Error::GprsHttpRequestFailed);
    }
    match crate::ack_check(result.as_str()) {
        true => Ok(result),
        false => Err(Error::NotResolved),
    }
}

/// The `Content-Type` header value for a request body encoding; form
/// urlencoding is the default.
pub fn get_content_type(content_type: &Option<ContentType>) -> (r: String)
    ensures
        match content_type {
            Some(ContentType::Json) => r@ == "application/json"@,
            _ => r@ == "application/x-www-form-urlencoded"@,
        },
{
    if let Some(ct) = content_type {
        return match ct {
            ContentType::FormUrlencoded => String::from_str(
                "application/x-www-form-urlencoded",
            ),
            ContentType::Json => String::from_str("application/json"),
        };
    }
    String::from_str("application/x-www-form-urlencoded")
}

// ---------------------------------------------------------------------------
// The HTTP command set
// ---------------------------------------------------------------------------
/// The URL the request addresses: for a GET, the encoded data replaces
/// the query part (everything from the first `?` on, or appended when
/// there is none); other methods send the URL as given.
pub open spec fn url_for_request(req: RequestView) -> Seq<char> {
    if req.method is GET {
        (match first_char_from(req.url, '?', 0) {
            Some(q) => if 0 <= q <= req.url.len() {
                req.url.subrange(0, q)
            } else {
                req.url
            },
            None => req.url,
        }) + "?"@ + req.data
    } else {
        req.url
    }
}

/// The `Content-Type` value sent for a body encoding.
pub open spec fn content_type_text(ct: Option<ContentType>) -> Seq<char> {
    match ct {
        Some(ContentType::Json) => "application/json"@,
        _ => "application/x-www-form-urlencoded"@,
    }
}

/// How many commands open an HTTP session for `req`: `HTTPINIT`, the
/// bearer profile, the URL, plus a header line when one is given and a
/// content type for a POST.
pub open spec fn init_count(req: RequestView) -> int {
    3 + (if req.headers is Some {
        1int
    } else {
        0int
    }) + (if req.method is POST {
        1int
    } else {
        0int
    })
}

/// The `i`-th session-opening command for `req`.
pub open spec fn init_view_at(req: RequestView, i: int) -> CommandRequestView {
    if i == 0 {
        process_view("AT+HTTPINIT\n"@, ResolverKind::HttpOk, None)
    } else if i == 1 {
        process_view("AT+HTTPPARA=CID,1\n"@, ResolverKind::HttpOk, None)
    } else if i == 2 {
        process_view(
            "AT+HTTPPARA=URL,"@ + url_for_request(req) + "\n"@,
            ResolverKind::HttpOk,
            None,
        )
    } else if i == 3 && req.headers is Some {
        process_view(
            "AT+HTTPPARA=USERDATA,\""@ + req.headers->0 + "\"\n"@,
            ResolverKind::HttpOk,
            None,
        )
    } else {
        process_view(
            "AT+HTTPPARA=CONTENT,"@ + content_type_text(req.content_type) + "\n"@,
            ResolverKind::HttpOk,
            None,
        )
    }
}

/// The three body-upload steps of a POST: announce the byte count, write
/// the body after the `DOWNLOAD` prompt, and read the acknowledgement.
pub open spec fn data_view_at(req: RequestView, i: int) -> CommandRequestView {
    if i == 0 {
        process_view(
            "AT+HTTPDATA="@ + text::dec_digits(
                vstd::utf8::encode_utf8(req.data).len() as int,
            ) + ",6000\n"@,
            ResolverKind::HttpDownload,
            Some(10000u64),
        )
    } else if i == 1 {
        CommandRequestView {
            op: UartOp::WriteOnly,
            cmd: req.data,
            resolver: ResolverKind::HttpOk,
            timeout_ms: None,
            priority: TaskPriority::NORMAL,
        }
    } else {
        CommandRequestView {
            op: UartOp::ReadOnly,
            cmd: Seq::empty(),
            resolver: ResolverKind::HttpOk,
            timeout_ms: Some(6000u64),
            priority: TaskPriority::NORMAL,
        }
    }
}

/// The `HTTPACTION` command for a method.
pub open spec fn action_view(m: RequestMethod) -> CommandRequestView {
    process_view(
        match m {
            RequestMethod::GET => "AT+HTTPACTION=0\n"@,
            RequestMethod::POST => "AT+HTTPACTION=1\n"@,
            RequestMethod::HEAD => "AT+HTTPACTION=2\n"@,
        },
        ResolverKind::HttpAction,
        Some(10000u64),
    )
}

/// The `HTTPREAD` command.
pub open spec fn read_view() -> CommandRequestView {
    process_view("AT+HTTPREAD\n"@, ResolverKind::HttpRead, Some(10000u64))
}

/// The `HTTPTERM` command.
pub open spec fn terminate_view() -> CommandRequestView {
    process_view("AT+HTTPTERM\n"@, ResolverKind::HttpOk, None)
}

/// Builds the `i`-th session-opening command for `req`.
pub fn init(req: &Request, i: usize) -> (r: CommandRequest)
    requires
        i < init_count(req@),
    ensures
        r@ == init_view_at(req@, i as int),
{
    if i == 0 {
        process_request("AT+HTTPINIT\n", ResolverKind::HttpOk, None)
    } else if i == 1 {
        process_request("AT+HTTPPARA=CID,1\n", ResolverKind::HttpOk, None)
    } else if i == 2 {
        let mut cmd = String::from_str("AT+HTTPPARA=URL,");
        match req.method {
            RequestMethod::GET => {
                let url = req.url.as_str();
                let n = url.unicode_len();
                match text::find_char_from(url, '?', 0) {
                    Some(q) => {
                        proof {
                            text::lemma_first_char_from(req.url@, '?', 0);
                        }
                        cmd.append(url.substring_char(0, q));
                    },
                    None => {
                        cmd.append(url);
                    },
                }
                cmd.append("?");
                cmd.append(req.data.as_str());
            },
            _ => {
                cmd.append(req.url.as_str());
            },
        }
        cmd.append("\n");
        proof {
            assert(cmd@ =~= "AT+HTTPPARA=URL,"@ + url_for_request(req@) + "\n"@);
        }
        CommandRequest {
            op: UartOp::Process,
            cmd,
            resolver: ResolverKind::HttpOk,
            timeout_ms: None,
            priority: TaskPriority::NORMAL,
        }
    } else if i == 3 && req.headers.is_some() {
        let mut cmd = String::from_str("AT+HTTPPARA=USERDATA,\"");
        match &req.headers {
            Some(h) => {
                cmd.append(h.as_str());
            },
            None => {},
        }
        cmd.append("\"\n");
        proof {
            assert(cmd@ =~= "AT+HTTPPARA=USERDATA,\""@ + req@.headers->0
                + "\"\n"@);
        }
        CommandRequest {
            op: UartOp::Process,
            cmd,
            resolver: ResolverKind::HttpOk,
            timeout_ms: None,
            priority: TaskPriority::NORMAL,
        }
    } else {
        let mut cmd = String::from_str("AT+HTTPPARA=CONTENT,");
        let ct = get_content_type(&req.content_type);
        cmd.append(ct.as_str());
        cmd.append("\n");
        proof {
            assert(cmd@ =~= "AT+HTTPPARA=CONTENT,"@ + content_type_text(
                req@.content_type,
            ) + "\n"@);
        }
        CommandRequest {
            op: UartOp::Process,
            cmd,
            resolver: ResolverKind::HttpOk,
            timeout_ms: None,
            priority: TaskPriority::NORMAL,
        }
    }
}

/// Builds the `i`-th body-upload step for `req`.
pub fn data(req: &Request, i: usize) -> (r: CommandRequest)
    requires
        i < 3,
    ensures
        r@ == data_view_at(req@, i as int),
{
    if i == 0 {
        let mut cmd = String::from_str("AT+HTTPDATA=");
        let body = req.data.as_str().as_bytes();
        let len = body.len();
        proof {
            assert(len == vstd::utf8::encode_utf8(req.data@).len());
        }
        text::push_decimal(&mut cmd, len as u64);
        cmd.append(",6000\n");
        proof {
            assert(cmd@ =~= "AT+HTTPDATA="@ + text::dec_digits(
                vstd::utf8::encode_utf8(req.data@).len() as int,
            ) + ",6000\n"@);
        }
        CommandRequest {
            op: UartOp::Process,
            cmd,
            resolver: ResolverKind::HttpDownload,
            timeout_ms: Some(10000),
            priority: TaskPriority::NORMAL,
        }
    } else if i == 1 {
        CommandRequest {
            op: UartOp::WriteOnly,
            cmd: req.data.clone(),
            resolver: ResolverKind::HttpOk,
            timeout_ms: None,
            priority: TaskPriority::NORMAL,
        }
    } else {
        CommandRequest {
            op: UartOp::ReadOnly,
            cmd: String::new(),
            resolver: ResolverKind::HttpOk,
            timeout_ms: Some(6000),
            priority: TaskPriority::NORMAL,
        }
    }
}

/// Builds the `HTTPACTION` command for a method.
pub fn action(method: RequestMethod) -> (r: CommandRequest)
    ensures
        r@ == action_view(method),
{
    match method {
        RequestMethod::GET => process_request(
            "AT+HTTPACTION=0\n",
            ResolverKind::HttpAction,
            Some(10000),
        ),
        RequestMethod::POST => process_request(
            "AT+HTTPACTION=1\n",
            ResolverKind::HttpAction,
            Some(10000),
        ),
        RequestMethod::HEAD => process_request(
            "AT+HTTPACTION=2\n",
            ResolverKind::HttpAction,
            Some(10000),
        ),
    }
}

/// Builds the `HTTPREAD` command.
pub fn read() -> (r: CommandRequest)
    ensures
        r@ == read_view(),
{
    process_request("AT+HTTPREAD\n", ResolverKind::HttpRead, Some(10000))
}

/// Builds the `HTTPTERM` command.
pub fn terminate() -> (r: CommandRequest)
    ensures
        r@ == terminate_view(),
{
    process_request("AT+HTTPTERM\n", ResolverKind::HttpOk, None)
}

} // verus!

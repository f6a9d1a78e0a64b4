//! Voice calls.
//!
//! Dialing, answering and hanging up are single `OK`-acknowledged
//! commands; an incoming call announces itself with a `+CLIP: "number",...`
//! line that the resolver here reads.

use vstd::prelude::*;

use crate::error::Error;
use crate::resolver::ResolverKind;
use crate::serial_port::{
    CommandRequest, CommandRequestView, TaskPriority, UartOp,
};
use crate::text::{fields_of, first_char_from, first_sub_from, without_quotes};
use crate::text;

verus! {

/// An incoming call, identified by the caller's number.
#[derive(Clone, Debug)]
pub struct IncomingCall {
    pub caller_id: String,
}

impl View for IncomingCall {
    type V = Seq<char>;

    open spec fn view(&self) -> Seq<char> {
        self.caller_id@
    }
}

impl DeepView for IncomingCall {
    type V = Seq<char>;

    open spec fn deep_view(&self) -> Seq<char> {
        self.caller_id@
    }
}

/// The tag that announces an incoming call.
pub open spec fn clip_marker() -> Seq<char> {
    "+CLIP: "@
}

/// What the incoming-call resolver returns: the first comma-separated
/// field after the first `+CLIP: ` tag on its line, with every quote
/// removed; anything else is not yet resolved.
pub open spec fn incoming_call_resolution(text: Seq<char>) -> Result<
    Seq<char>,
    Error,
> {
    match first_sub_from(text, clip_marker(), 0) {
        Some(k) => {
            let start = k + clip_marker().len();
            let stop = match first_char_from(text, '\n', start) {
                Some(e) => e,
                None => text.len() as int,
            };
            if 0 <= start <= stop <= text.len() {
                Ok(without_quotes(fields_of(text.subrange(start, stop))[0]))
            } else {
                Err(Error::NotResolved)
            }
        },
        None => Err(Error::NotResolved),
    }
}

/// Reads a `+CLIP` incoming-call line.
pub fn parse_incoming_call(text: &str) -> (r: Result<IncomingCall, Error>)
    ensures
        match r {
            Ok(c) => incoming_call_resolution(text@) == Ok::<Seq<char>, Error>(c@),
            Err(e) => incoming_call_resolution(text@) == Err::<Seq<char>, Error>(e),
        },
{
    proof {
        reveal_strlit("+CLIP: ");
    }
    let n = text.unicode_len();
    let k = match text::find_sub_from(text, "+CLIP: ", 0) {
        Some(k) => k,
        None => {
            return Err(Error::NotResolved);
        },
    };
    proof {
        text::lemma_first_sub_from(text@, clip_marker(), 0);
    }
    let start = k + 7;
    let stop = match text::find_char_from(text, '\n', start) {
        Some(e) => e,
        None => n,
    };
    proof {
        text::lemma_first_char_from(text@, '\n', start as int);
    }
    let line = text.substring_char(start, stop);
    let fields = text::split_commas(line, 0);
    proof {
        assert(line@ =~= text@.subrange(start as int, stop as int));
        assert(fields.deep_view() == fields_of(text@.subrange(
            start as int,
            stop as int,
        )));
        assert(fields.deep_view().len() > 0);
    }
    let caller_id = text::strip_quotes(fields[0].as_str());
    Ok(IncomingCall { caller_id })
}

/// The dialing command for a number: `ATD<number>;`.
pub open spec fn dial_cmd(number: Seq<char>) -> Seq<char> {
    "ATD"@ + number + ";\n"@
}

/// The phone feature: dialing, answering, hanging up, and watching for an
/// incoming call.
pub struct Phone {
}

impl Phone {
    /// The phone feature handle.
    pub fn new() -> (r: Phone) {
        Phone {  }
    }

    /// Plans dialing `number`, run under one normal-priority task.
    pub fn call(&self, number: &str) -> (r: CommandRequest)
        ensures
            r@ == (CommandRequestView {
                op: UartOp::Process,
                cmd: dial_cmd(number@),
                resolver: ResolverKind::PhoneDial,
                timeout_ms: None,
                priority: TaskPriority::NORMAL,
            }),
    {
        let mut cmd = String::from_str("ATD");
        cmd.append(number);
        cmd.append(";\n");
        CommandRequest {
            op: UartOp::Process,
            cmd,
            resolver: ResolverKind::PhoneDial,
            timeout_ms: None,
            priority: TaskPriority::NORMAL,
        }
    }

    /// Plans hanging up: `ATH`, under a high-priority task so that it
    /// overtakes waiting normal work.
    pub fn end_call(&self) -> (r: CommandRequest)
        ensures
            r@ == (CommandRequestView {
                op: UartOp::Process,
                cmd: "ATH\n"@,
                resolver: ResolverKind::PhoneHangup,
                timeout_ms: None,
                priority: TaskPriority::HIGH,
            }),
    {
        CommandRequest {
            op: UartOp::Process,
            cmd: String::from_str("ATH\n"),
            resolver: ResolverKind::PhoneHangup,
            timeout_ms: None,
            priority: TaskPriority::HIGH,
        }
    }

    /// Plans answering: `ATA`, under a high-priority task.
    pub fn answer(&self) -> (r: CommandRequest)
        ensures
            r@ == (CommandRequestView {
                op: UartOp::Process,
                cmd: "ATA\n"@,
                resolver: ResolverKind::PhoneAnswer,
                timeout_ms: None,
                priority: TaskPriority::HIGH,
            }),
    {
        CommandRequest {
            op: UartOp::Process,
            cmd: String::from_str("ATA\n"),
            resolver: ResolverKind::PhoneAnswer,
            timeout_ms: None,
            priority: TaskPriority::HIGH,
        }
    }

    /// Plans listening for an incoming call: a bare polling read of the
    /// `+CLIP` line under a four-second timeout, with nothing written.
    pub fn get_incoming_call(&self) -> (r: CommandRequest)
        ensures
            r@ == (CommandRequestView {
                op: UartOp::ReadOnly,
                cmd: Seq::empty(),
                resolver: ResolverKind::IncomingCallId,
                timeout_ms: Some(4000u64),
                priority: TaskPriority::NORMAL,
            }),
    {
        CommandRequest {
            op: UartOp::ReadOnly,
            cmd: String::new(),
            resolver: ResolverKind::IncomingCallId,
            timeout_ms: Some(4000),
            priority: TaskPriority::NORMAL,
        }
    }
}

} // verus!

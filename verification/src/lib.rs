//! Driver core for a SIM868-class GSM/GPRS/GNSS modem attached over a UART
//! serial link.
//!
//! The heart of the crate is the serial-port command broker: a single shared
//! UART channel is multiplexed among concurrent caller tasks through a
//! priority queue with FIFO tie-breaking, and every modem operation is a
//! command line written to the UART followed by a polling read that feeds the
//! accumulated response text to a resolver until it produces a terminal
//! result or the timeout elapses.
//!
//! The modules mirror the modem's feature areas: [`hat`] (power and signal),
//! [`sms`], [`gnss`], [`phone`] and [`gprs`] (with the HTTP command flow in
//! [`http`]). Each feature method builds the exact command text, names the
//! resolver for its response, and the multi-step flows are explicit state
//! machines, so that the scheduling, framing and parsing rules are all
//! stated and checked here. The byte I/O itself (serial device, GPIO power
//! pin, task runtime) lives outside this crate; a driver loop performs each
//! requested action and hands the observed bytes back.

use vstd::prelude::*;

pub mod datetime;
pub mod error;
pub mod gnss;
pub mod gprs;
pub mod hat;
pub mod http;
pub mod phone;
pub mod resolver;
pub mod serial_port;
pub mod sms;
pub mod text;

use error::Error;

verus! {

/// Shorthand for the outcome of a resolver or of a whole UART operation.
pub type ResolverReturn<T> = Result<T, Error>;

/// The terminator the modem prints after a successful command.
pub open spec fn ok_marker() -> Seq<char> {
    "\r\nOK\r\n"@
}

/// The terminator the modem prints after a failed command.
pub open spec fn error_marker() -> Seq<char> {
    "\r\nERROR\r\n"@
}

/// True iff the response text contains the success terminator `\r\nOK\r\n`.
pub fn ack_check(text: &str) -> (r: bool)
    ensures
        r == text::has_sub(text@, ok_marker()),
{
    text::contains_sub(text, "\r\nOK\r\n")
}

/// True iff the response text contains the failure terminator `\r\nERROR\r\n`.
pub fn error_check(text: &str) -> (r: bool)
    ensures
        r == text::has_sub(text@, error_marker()),
{
    text::contains_sub(text, "\r\nERROR\r\n")
}

/// What [`generic_resolver`] returns on a given response text: the supplied
/// error once `\r\nERROR\r\n` appears, success once `\r\nOK\r\n` appears
/// without it, and `NotResolved` while neither terminator has arrived.
pub open spec fn generic_resolution(text: Seq<char>, err: Error) -> Result<(), Error> {
    if text::has_sub(text, error_marker()) {
        Err(err)
    } else if text::has_sub(text, ok_marker()) {
        Ok(())
    } else {
        Err(Error::NotResolved)
    }
}

/// The shared success-or-error resolver: maps accumulated response text to
/// the caller-supplied error on `ERROR`, success on `OK`, and `NotResolved`
/// otherwise.
pub fn generic_resolver(result: &str, err: Error) -> (r: ResolverReturn<()>)
    ensures
        r == generic_resolution(result@, err),
{
    if error_check(result) {
        return Err(err);
    }
    match ack_check(result) {
        true => Ok(()),
        false => Err(Error::NotResolved),
    }
}

/// The three outcomes of the shared resolver cover every text exactly
/// once: it returns the supplied error precisely when the failure
/// terminator stands in the text, success precisely when the success
/// terminator stands there without the failure terminator, and
/// `NotResolved` precisely when neither terminator has arrived.
pub proof fn lemma_generic_resolver_trichotomy(text: Seq<char>, err: Error)
    requires
        !(err is NotResolved),
    ensures
        (generic_resolution(text, err) == Err::<(), Error>(err)) <==> text::has_sub(
            text,
            error_marker(),
        ),
        (generic_resolution(text, err) == Ok::<(), Error>(())) <==> (text::has_sub(
            text,
            ok_marker(),
        ) && !text::has_sub(text, error_marker())),
        (generic_resolution(text, err) == Err::<(), Error>(Error::NotResolved))
            <==> (!text::has_sub(text, ok_marker()) && !text::has_sub(
            text,
            error_marker(),
        )),
{
}

/// The root handle: one field per feature area. Each feature method plans
/// work — a [`serial_port::CommandRequest`] or a flow of them — for the
/// driver loop to run through a [`serial_port::SerialPort`] broker.
pub struct SIM868 {
    pub hat: hat::Hat,
    pub sms: sms::SMS,
    pub gnss: gnss::GNSS,
    pub phone: phone::Phone,
    pub gprs: gprs::GPRS,
}

impl SIM868 {
    /// The root handle with all five features.
    pub fn new() -> (r: SIM868) {
        SIM868 {
            gnss: gnss::GNSS::new(),
            hat: hat::Hat::new(),
            sms: sms::SMS::new(),
            gprs: gprs::GPRS::new(),
            phone: phone::Phone::new(),
        }
    }
}

} // verus!

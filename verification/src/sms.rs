//! SMS messaging.
//!
//! Sending is acknowledged with a `+CMGS: d` line; a stored-message
//! listing answers with one `+CMGL: i,...` header line and one text line
//! per message, closed by the `OK` terminator. The resolvers here read
//! those reports; a malformed record in an otherwise complete listing is
//! skipped, never a fault.

use vstd::prelude::*;

use crate::datetime::{timestamp_of, Timestamp};
use crate::error::Error;
use crate::text::{
    digit_run_len, digits_value_in, fields_of, first_char_from, first_sub_from,
    has_sub, sub_at, trim_spec, without_quotes,
};
use crate::resolver::ResolverKind;
use crate::serial_port::{
    process_view, CommandRequest, CommandRequestView, CommandSequence,
    TaskPriority, UartOp,
};
use crate::text;
use crate::{error_marker, ok_marker};

verus! {

/// Which stored messages an operation touches.
#[allow(non_camel_case_types)]
#[derive(Clone, Copy, Debug, PartialEq, Eq, Structural)]
pub enum MessageStorage {
    UNREAD,
    READ,
    ALL,
}

/// One stored message as the listing reports it.
#[derive(Clone, Debug)]
pub struct Message {
    pub index: u8,
    pub text: String,
    pub sender: String,
    pub datetime: Timestamp,
}

/// The mathematical image of a [`Message`].
pub struct MessageView {
    pub index: u8,
    pub text: Seq<char>,
    pub sender: Seq<char>,
    pub datetime: Timestamp,
}

impl View for Message {
    type V = MessageView;

    open spec fn view(&self) -> MessageView {
        MessageView {
            index: self.index,
            text: self.text@,
            sender: self.sender@,
            datetime: self.datetime,
        }
    }
}

impl DeepView for Message {
    type V = MessageView;

    open spec fn deep_view(&self) -> MessageView {
        self.view()
    }
}

/// The tag that opens one line of a message listing.
pub open spec fn cmgl_marker() -> Seq<char> {
    "+CMGL: "@
}

/// The tag that acknowledges a sent message.
pub open spec fn cmgs_marker() -> Seq<char> {
    "+CMGS: "@
}

/// What the send resolver returns: `SmsNotSent` once the failure
/// terminator appears, success once a `+CMGS: d` acknowledgement stands in
/// the text, and not-yet-resolved otherwise.
pub open spec fn sms_sent_resolution(text: Seq<char>) -> Result<(), Error> {
    if has_sub(text, error_marker()) {
        Err(Error::SmsNotSent)
    } else if match first_sub_from(text, cmgs_marker(), 0) {
        Some(k) => k + cmgs_marker().len() < text.len() && text::is_digit(
            text[k + cmgs_marker().len()],
        ),
        None => false,
    } {
        Ok(())
    } else {
        Err(Error::NotResolved)
    }
}

/// The timestamp written in a listing's date and time fields: `yy/mm/dd`
/// and `hh:mm:ss` (the time field may go on, e.g. with a zone offset).
/// Two-digit years 00 to 68 read as 2000 to 2068, 69 to 99 as 1969 to
/// 1999.
pub open spec fn sms_timestamp(d: Seq<char>, t: Seq<char>) -> Option<Timestamp> {
    if d.len() == 8 && t.len() >= 8 && d[2] == '/' && d[5] == '/' && t[2] == ':'
        && t[5] == ':' {
        match (
            digits_value_in(d, 0, 2),
            digits_value_in(d, 3, 5),
            digits_value_in(d, 6, 8),
            digits_value_in(t, 0, 2),
            digits_value_in(t, 3, 5),
            digits_value_in(t, 6, 8),
        ) {
            (Some(yy), Some(mo), Some(dd), Some(h), Some(mi), Some(s)) => {
                let year = if yy <= 68 {
                    2000 + yy
                } else {
                    1900 + yy
                };
                timestamp_of(year, mo, dd, h, mi, s)
            },
            _ => None,
        }
    } else {
        None
    }
}

/// The message record opened by the `+CMGL: ` tag at index `k`, and the
/// position scanning continues from: the header line holds the index
/// digits, a comma, and the quoted comma-separated details (status,
/// sender, blank, date, time); the following line holds the message text.
/// `None` when anything of that shape is missing.
pub open spec fn record_at(text: Seq<char>, k: int) -> Option<(MessageView, int)> {
    let istart = k + cmgl_marker().len() as int;
    if !(0 <= istart <= text.len()) {
        None
    } else {
        let irun = digit_run_len(text, istart);
        match digits_value_in(text, istart, istart + irun) {
            None => None,
            Some(idx) => if idx > 255 || !(istart + irun < text.len() && text[istart
                + irun] == ',') {
                None
            } else {
                let dstart = istart + irun + 1;
                match first_char_from(text, '\n', dstart) {
                    None => None,
                    Some(nl) => if !(dstart < nl - 1 && text[nl - 1] == '\r') {
                        None
                    } else {
                        let tstart = nl + 1;
                        let tend = match first_char_from(text, '\n', tstart) {
                            Some(e) => e,
                            None => text.len() as int,
                        };
                        if !(tstart < tend && tend <= text.len()) {
                            None
                        } else {
                            let details = without_quotes(
                                trim_spec(text.subrange(dstart, nl - 1)),
                            );
                            let fs = fields_of(details);
                            if fs.len() < 5 {
                                None
                            } else {
                                match sms_timestamp(fs[3], fs[4]) {
                                    None => None,
                                    Some(ts) => Some(
                                        (
                                            MessageView {
                                                index: idx as u8,
                                                text: trim_spec(
                                                    text.subrange(tstart, tend),
                                                ),
                                                sender: fs[1],
                                                datetime: ts,
                                            },
                                            tend,
                                        ),
                                    ),
                                }
                            }
                        }
                    },
                }
            },
        }
    }
}

/// All well-formed message records at or after `from`, in text order.
pub open spec fn records_from(text: Seq<char>, from: int) -> Seq<MessageView>
    decreases text.len() - from,
{
    if !(0 <= from <= text.len()) {
        Seq::empty()
    } else {
        match first_sub_from(text, cmgl_marker(), from) {
            None => Seq::empty(),
            Some(k) => match record_at(text, k) {
                Some(pair) => if from < pair.1 <= text.len() {
                    seq![pair.0] + records_from(text, pair.1)
                } else {
                    seq![pair.0]
                },
                None => {
                    let next = k + cmgl_marker().len() as int;
                    if from < next <= text.len() {
                        records_from(text, next)
                    } else {
                        Seq::empty()
                    }
                },
            },
        }
    }
}

/// What the listing resolver returns: the reading-failure error once the
/// failure terminator appears, the well-formed records once the success
/// terminator has arrived, and not-yet-resolved otherwise.
pub open spec fn sms_list_resolution(text: Seq<char>) -> Result<
    Seq<MessageView>,
    Error,
> {
    if has_sub(text, error_marker()) {
        Err(Error::SmsProblemWithReadingMessages)
    } else if has_sub(text, ok_marker()) {
        Ok(records_from(text, 0))
    } else {
        Err(Error::NotResolved)
    }
}

/// Reads a `+CMGS` send acknowledgement.
pub fn parse_sms_sent(text: &str) -> (r: Result<(), Error>)
    ensures
        r == sms_sent_resolution(text@),
{
    if crate::error_check(text) {
        return Err(Error::SmsNotSent);
    }
    proof {
        reveal_strlit("+CMGS: ");
    }
    let n = text.unicode_len();
    if let Some(k) = text::find_sub_from(text, "+CMGS: ", 0) {
        proof {
            text::lemma_first_sub_from(text@, cmgs_marker(), 0);
        }
        if k + 7 < n {
            let c = text.get_char(k + 7);
            if '0' <= c && c <= '9' {
                return Ok(());
            }
        }
    }
    Err(Error::NotResolved)
}

/// Reads the date and time fields of one listed message.
fn parse_sms_timestamp(d: &str, t: &str) -> (r: Option<Timestamp>)
    ensures
        r == sms_timestamp(d@, t@),
{
    let dn = d.unicode_len();
    let tn = t.unicode_len();
    if !(dn == 8 && tn >= 8) {
        return None;
    }
    if !(d.get_char(2) == '/' && d.get_char(5) == '/' && t.get_char(2) == ':'
        && t.get_char(5) == ':') {
        return None;
    }
    let yy = match text::parse_digits_u64(d, 0, 2) {
        Some(v) => v,
        None => {
            return None;
        },
    };
    let mo = match text::parse_digits_u64(d, 3, 5) {
        Some(v) => v,
        None => {
            return None;
        },
    };
    let dd = match text::parse_digits_u64(d, 6, 8) {
        Some(v) => v,
        None => {
            return None;
        },
    };
    let h = match text::parse_digits_u64(t, 0, 2) {
        Some(v) => v,
        None => {
            return None;
        },
    };
    let mi = match text::parse_digits_u64(t, 3, 5) {
        Some(v) => v,
        None => {
            return None;
        },
    };
    let s = match text::parse_digits_u64(t, 6, 8) {
        Some(v) => v,
        None => {
            return None;
        },
    };
    proof {
        reveal_with_fuel(text::pow10, 3);
        text::lemma_digits_val_bound(d@.subrange(0, 2));
        text::lemma_digits_val_bound(d@.subrange(3, 5));
        text::lemma_digits_val_bound(d@.subrange(6, 8));
        text::lemma_digits_val_bound(t@.subrange(0, 2));
        text::lemma_digits_val_bound(t@.subrange(3, 5));
        text::lemma_digits_val_bound(t@.subrange(6, 8));
    }
    let year: u16 = if yy <= 68 {
        2000 + (yy as u16)
    } else {
        1900 + (yy as u16)
    };
    Timestamp::make(year, mo as u8, dd as u8, h as u8, mi as u8, s as u8)
}

/// Reads the message record opened by the `+CMGL: ` tag at `k`.
fn parse_record(text: &str, k: usize) -> (r: Option<(Message, usize)>)
    requires
        sub_at(text@, cmgl_marker(), k as int),
        text@.len() <= usize::MAX,
    ensures
        match r {
            Some(p) => record_at(text@, k as int) == Some((p.0@, p.1 as int)) && k
                < p.1 <= text@.len(),
            None => record_at(text@, k as int) is None,
        },
{
    proof {
        reveal_strlit("+CMGL: ");
    }
    let n = text.unicode_len();
    let istart = k + 7;
    let irun = text::digit_run(text, istart);
    let idxv = match text::parse_digits_u64(text, istart, istart + irun) {
        Some(v) => v,
        None => {
            return None;
        },
    };
    proof {
        text::lemma_digits_val_bound(text@.subrange(
            istart as int,
            (istart + irun) as int,
        ));
        text::lemma_pow10_le_18(irun as nat);
    }
    if idxv > 255 {
        return None;
    }
    if !(istart + irun < n) {
        return None;
    }
    if text.get_char(istart + irun) != ',' {
        return None;
    }
    let dstart = istart + irun + 1;
    let nl = match text::find_char_from(text, '\n', dstart) {
        Some(e) => e,
        None => {
            return None;
        },
    };
    proof {
        text::lemma_first_char_from(text@, '\n', dstart as int);
    }
    if !(dstart + 1 < nl) {
        return None;
    }
    if text.get_char(nl - 1) != '\r' {
        return None;
    }
    let tstart = nl + 1;
    let tend = match text::find_char_from(text, '\n', tstart) {
        Some(e) => e,
        None => n,
    };
    proof {
        text::lemma_first_char_from(text@, '\n', tstart as int);
    }
    if !(tstart < tend) {
        return None;
    }
    let data_str = text.substring_char(dstart, nl - 1);
    let trimmed = text::trim(data_str);
    let dq = text::strip_quotes(trimmed.as_str());
    let fields = text::split_commas(dq.as_str(), 0);
    proof {
        assert(data_str@ =~= text@.subrange(dstart as int, nl - 1));
        assert(fields.deep_view() == fields_of(without_quotes(trim_spec(
            text@.subrange(dstart as int, nl - 1),
        ))));
    }
    if fields.len() < 5 {
        return None;
    }
    let ts = match parse_sms_timestamp(fields[3].as_str(), fields[4].as_str()) {
        Some(t) => t,
        None => {
            return None;
        },
    };
    let body = text.substring_char(tstart, tend);
    let msgtext = text::trim(body);
    proof {
        assert(body@ =~= text@.subrange(tstart as int, tend as int));
    }
    let sender = fields[1].clone();
    Some((Message { index: idxv as u8, text: msgtext, sender, datetime: ts }, tend))
}

/// Reads a whole `+CMGL` message listing.
pub fn parse_sms_list(text: &str) -> (r: Result<Vec<Message>, Error>)
    ensures
        match r {
            Ok(v) => sms_list_resolution(text@) == Ok::<Seq<MessageView>, Error>(
                v.deep_view(),
            ),
            Err(e) => sms_list_resolution(text@) == Err::<Seq<MessageView>, Error>(
                e,
            ),
        },
{
    if crate::error_check(text) {
        return Err(Error::SmsProblemWithReadingMessages);
    }
    if !crate::ack_check(text) {
        return Err(Error::NotResolved);
    }
    proof {
        reveal_strlit("+CMGL: ");
    }
    let n = text.unicode_len();
    let mut msgs: Vec<Message> = Vec::new();
    let mut pos: usize = 0;
    loop
        invariant
            0 <= pos <= n,
            n == text@.len(),
            crate::text::has_sub(text@, ok_marker()),
            !crate::text::has_sub(text@, error_marker()),
            msgs.deep_view() + records_from(text@, pos as int) == records_from(
                text@,
                0,
            ),
        decreases n - pos,
    {
        proof {
            reveal_strlit("+CMGL: ");
        }
        let k = match text::find_sub_from(text, "+CMGL: ", pos) {
            Some(k) => k,
            None => {
                proof {
                    assert(records_from(text@, pos as int) =~= Seq::<
                        MessageView,
                    >::empty());
                    assert(msgs.deep_view() =~= records_from(text@, 0));
                }
                return Ok(msgs);
            },
        };
        proof {
            text::lemma_first_sub_from(text@, cmgl_marker(), pos as int);
        }
        match parse_record(text, k) {
            Some(p) => {
                let (m, cont) = p;
                let ghost before = msgs.deep_view();
                msgs.push(m);
                proof {
                    assert(msgs.deep_view() =~= before.push(m@));
                    assert(records_from(text@, pos as int) =~= seq![m@]
                        + records_from(text@, cont as int));
                    assert(msgs.deep_view() + records_from(text@, cont as int)
                        =~= records_from(text@, 0));
                }
                pos = cont;
            },
            None => {
                proof {
                    assert(records_from(text@, pos as int) =~= records_from(
                        text@,
                        k + 7,
                    ));
                }
                pos = k + 7;
            },
        }
    }
}

/// The send command for a quoted recipient and a message text, closed by
/// the `Ctrl-Z` byte the modem expects.
pub open spec fn send_cmd(recipient: Seq<char>, message: Seq<char>) -> Seq<char> {
    "AT+CMGS=\""@ + recipient + "\"\n"@ + message + "\x1A\n"@
}

/// The listing command for a storage class: unread messages, or all of
/// them (reading the already-read class lists everything).
pub open spec fn list_cmd(storage: MessageStorage) -> Seq<char> {
    match storage {
        MessageStorage::UNREAD => "AT+CMGL=\"REC UNREAD\"\n"@,
        _ => "AT+CMGL=\"ALL\"\n"@,
    }
}

/// The bulk-removal command for a storage class.
pub open spec fn remove_all_cmd(storage: MessageStorage) -> Seq<char> {
    match storage {
        MessageStorage::ALL => "AT+CMGDA=\"DEL ALL\"\n"@,
        MessageStorage::READ => "AT+CMGDA=\"DEL READ\"\n"@,
        MessageStorage::UNREAD => "AT+CMGDA=\"DEL UNREAD\"\n"@,
    }
}

/// The text-mode switch that opens every SMS flow.
pub open spec fn text_mode_view() -> CommandRequestView {
    process_view("AT+CMGF=1\n"@, ResolverKind::SmsTextMode, None)
}

fn text_mode_request() -> (r: CommandRequest)
    ensures
        r@ == text_mode_view(),
{
    crate::serial_port::process_request(
        "AT+CMGF=1\n",
        ResolverKind::SmsTextMode,
        None,
    )
}

/// The SMS feature: sending, listing and removing stored messages.
pub struct SMS {
}

impl SMS {
    /// The SMS feature handle.
    pub fn new() -> (r: SMS) {
        SMS {  }
    }

    /// Plans sending `text` to `recipient` (up to 160 characters): switch
    /// to text mode, then the send command under a twenty-second timeout,
    /// as one normal-priority flow.
    pub fn send(&self, recipient: &str, text: &str) -> (r: CommandSequence)
        ensures
            r.wf(),
            r.next == 0,
            r.outcome is None,
            r.steps@.len() == 2,
            (r.steps@[0])@ == text_mode_view(),
            (r.steps@[1])@ == process_view(
                send_cmd(recipient@, text@),
                ResolverKind::SmsSent,
                Some(20000u64),
            ),
    {
        let mut cmd = String::from_str("AT+CMGS=\"");
        cmd.append(recipient);
        cmd.append("\"\n");
        cmd.append(text);
        cmd.append("\x1A\n");
        proof {
            assert(cmd@ =~= send_cmd(recipient@, text@));
        }
        let mut steps: Vec<CommandRequest> = Vec::new();
        steps.push(text_mode_request());
        steps.push(
            CommandRequest {
                op: UartOp::Process,
                cmd,
                resolver: ResolverKind::SmsSent,
                timeout_ms: Some(20000),
                priority: TaskPriority::NORMAL,
            },
        );
        CommandSequence::new(steps)
    }

    /// Plans listing the stored messages of `storage`: text mode, then the
    /// listing command under a twenty-second timeout.
    pub fn get_messages(&self, storage: MessageStorage) -> (r: CommandSequence)
        ensures
            r.wf(),
            r.next == 0,
            r.outcome is None,
            r.steps@.len() == 2,
            (r.steps@[0])@ == text_mode_view(),
            (r.steps@[1])@ == process_view(
                list_cmd(storage),
                ResolverKind::SmsList,
                Some(20000u64),
            ),
    {
        let cmd = match storage {
            MessageStorage::UNREAD => "AT+CMGL=\"REC UNREAD\"\n",
            _ => "AT+CMGL=\"ALL\"\n",
        };
        let mut steps: Vec<CommandRequest> = Vec::new();
        steps.push(text_mode_request());
        steps.push(
            crate::serial_port::process_request(
                cmd,
                ResolverKind::SmsList,
                Some(20000),
            ),
        );
        CommandSequence::new(steps)
    }

    /// Plans removing every message of `storage`: text mode, then the bulk
    /// removal under a thirty-second timeout.
    pub fn remove_all_messages(&self, storage: MessageStorage) -> (r:
        CommandSequence)
        ensures
            r.wf(),
            r.next == 0,
            r.outcome is None,
            r.steps@.len() == 2,
            (r.steps@[0])@ == text_mode_view(),
            (r.steps@[1])@ == process_view(
                remove_all_cmd(storage),
                ResolverKind::SmsRemove,
                Some(30000u64),
            ),
    {
        let cmd = match storage {
            MessageStorage::ALL => "AT+CMGDA=\"DEL ALL\"\n",
            MessageStorage::READ => "AT+CMGDA=\"DEL READ\"\n",
            MessageStorage::UNREAD => "AT+CMGDA=\"DEL UNREAD\"\n",
        };
        let mut steps: Vec<CommandRequest> = Vec::new();
        steps.push(text_mode_request());
        steps.push(
            crate::serial_port::process_request(
                cmd,
                ResolverKind::SmsRemove,
                Some(30000),
            ),
        );
        CommandSequence::new(steps)
    }

    /// Plans removing the single message at `index`, under a ten-second
    /// timeout.
    pub fn remove_message(&self, index: u8) -> (r: CommandRequest)
        ensures
            r@ == process_view(
                "AT+CMGD="@ + text::dec_digits(index as int) + "\n"@,
                ResolverKind::SmsRemove,
                Some(10000u64),
            ),
    {
        let mut cmd = String::from_str("AT+CMGD=");
        text::push_decimal(&mut cmd, index as u64);
        cmd.append("\n");
        CommandRequest {
            op: UartOp::Process,
            cmd,
            resolver: ResolverKind::SmsRemove,
            timeout_ms: Some(10000),
            priority: TaskPriority::NORMAL,
        }
    }
}

} // verus!

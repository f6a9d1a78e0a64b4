//! The crate's resolvers, as one closed set.
//!
//! A resolver is a pure, total function from accumulated response text to
//! a typed outcome; `NotResolved` means "keep polling". The broker carries
//! a [`ResolverKind`] naming which resolver a command uses, and
//! [`run_resolver`] applies it; [`resolution`] is the specification-level
//! image of that application, and every contract about a command's answer
//! goes through it.

use vstd::prelude::*;

use crate::error::Error;
use crate::gnss::{gnss_power_resolution, gnss_resolution, GNSSData};
use crate::gprs::conn_status_resolution;
use crate::hat::signal_resolution;
use crate::http::{
    action_marker, download_marker, http_read_resolution, http_step_resolution,
};
use crate::phone::{incoming_call_resolution, IncomingCall};
use crate::sms::{sms_list_resolution, sms_sent_resolution, Message, MessageView};
use crate::text::has_sub;
use crate::{generic_resolution, ok_marker};
use crate::{gnss, gprs, hat, http, phone, sms};

verus! {

/// Which resolver a command's answer goes through.
#[derive(Clone, Copy, Debug, PartialEq, Eq, Structural)]
pub enum ResolverKind {
    /// `+CGNSINF` fix report.
    GnssFix,
    /// `+CGNSPWR` power report.
    GnssPower,
    /// Power switching, `OK`-acknowledged.
    GnssSet,
    /// `+CSQ` signal report.
    SignalStrength,
    /// Bare `AT` liveness ping.
    HatPing,
    /// APN configuration, `OK`-acknowledged.
    ApnSet,
    /// Bearer opening, `OK`-acknowledged.
    ConnOpen,
    /// Bearer closing, `OK`-acknowledged.
    ConnClose,
    /// `+SAPBR` bearer status report.
    ConnStatus,
    /// HTTP step acknowledged with `OK`.
    HttpOk,
    /// HTTP body upload prompt.
    HttpDownload,
    /// `+HTTPACTION` outcome report.
    HttpAction,
    /// `HTTPREAD` response text.
    HttpRead,
    /// `+CLIP` incoming call line.
    IncomingCallId,
    /// `+CMGS` send acknowledgement.
    SmsSent,
    /// Text-mode switching, `OK`-acknowledged.
    SmsTextMode,
    /// `+CMGL` message listing.
    SmsList,
    /// Message removal, `OK`-acknowledged.
    SmsRemove,
    /// Call answering, `OK`-acknowledged.
    PhoneAnswer,
    /// Dialing, `OK`-acknowledged.
    PhoneDial,
    /// Hanging up, `OK`-acknowledged.
    PhoneHangup,
}

/// A resolver's typed success value.
#[derive(Debug)]
pub enum ResolvedValue {
    Unit,
    Flag(bool),
    Byte(u8),
    Text(String),
    Fix(GNSSData),
    Caller(IncomingCall),
    Inbox(Vec<Message>),
}

/// The mathematical image of a [`ResolvedValue`].
pub enum ResolvedView {
    Unit,
    Flag(bool),
    Byte(u8),
    Text(Seq<char>),
    Fix(GNSSData),
    Caller(Seq<char>),
    Inbox(Seq<MessageView>),
}

impl View for ResolvedValue {
    type V = ResolvedView;

    open spec fn view(&self) -> ResolvedView {
        match self {
            ResolvedValue::Unit => ResolvedView::Unit,
            ResolvedValue::Flag(b) => ResolvedView::Flag(*b),
            ResolvedValue::Byte(v) => ResolvedView::Byte(*v),
            ResolvedValue::Text(s) => ResolvedView::Text(s@),
            ResolvedValue::Fix(d) => ResolvedView::Fix(*d),
            ResolvedValue::Caller(c) => ResolvedView::Caller(c@),
            ResolvedValue::Inbox(v) => ResolvedView::Inbox(v.deep_view()),
        }
    }
}

/// Lifts a plain acknowledgement into a resolver outcome.
pub open spec fn lift_unit(r: Result<(), Error>) -> Result<ResolvedView, Error> {
    match r {
        Ok(_) => Ok(ResolvedView::Unit),
        Err(e) => Err(e),
    }
}

/// What the resolver named by `kind` returns on `text`. Total: any text a
/// resolver cannot read yet comes back as `NotResolved`.
pub open spec fn resolution(kind: ResolverKind, text: Seq<char>) -> Result<
    ResolvedView,
    Error,
> {
    match kind {
        ResolverKind::GnssFix => match gnss_resolution(text) {
            Ok(d) => Ok(ResolvedView::Fix(d)),
            Err(e) => Err(e),
        },
        ResolverKind::GnssPower => match gnss_power_resolution(text) {
            Ok(b) => Ok(ResolvedView::Flag(b)),
            Err(e) => Err(e),
        },
        ResolverKind::GnssSet => lift_unit(
            generic_resolution(text, Error::GnssProblem),
        ),
        ResolverKind::SignalStrength => match signal_resolution(text) {
            Ok(v) => Ok(ResolvedView::Byte(v)),
            Err(e) => Err(e),
        },
        ResolverKind::HatPing => if has_sub(text, ok_marker()) {
            Ok(ResolvedView::Flag(true))
        } else {
            Err(Error::NotResolved)
        },
        ResolverKind::ApnSet => lift_unit(
            generic_resolution(text, Error::GprsApnConfigSetFailed),
        ),
        ResolverKind::ConnOpen => lift_unit(
            generic_resolution(text, Error::GprsConnectionOpenFailed),
        ),
        ResolverKind::ConnClose => lift_unit(
            generic_resolution(text, Error::GprsConnectionCloseFailed),
        ),
        ResolverKind::ConnStatus => match conn_status_resolution(text) {
            Ok(v) => Ok(ResolvedView::Byte(v)),
            Err(e) => Err(e),
        },
        ResolverKind::HttpOk => lift_unit(http_step_resolution(text, ok_marker())),
        ResolverKind::HttpDownload => lift_unit(
            http_step_resolution(text, download_marker()),
        ),
        ResolverKind::HttpAction => lift_unit(
            http_step_resolution(text, action_marker()),
        ),
        ResolverKind::HttpRead => match http_read_resolution(text) {
            Ok(s) => Ok(ResolvedView::Text(s)),
            Err(e) => Err(e),
        },
        ResolverKind::IncomingCallId => match incoming_call_resolution(text) {
            Ok(c) => Ok(ResolvedView::Caller(c)),
            Err(e) => Err(e),
        },
        ResolverKind::SmsSent => lift_unit(sms_sent_resolution(text)),
        ResolverKind::SmsTextMode => lift_unit(
            generic_resolution(text, Error::SmsProblemWithSettingTextMode),
        ),
        ResolverKind::SmsList => match sms_list_resolution(text) {
            Ok(v) => Ok(ResolvedView::Inbox(v)),
            Err(e) => Err(e),
        },
        ResolverKind::SmsRemove => lift_unit(
            generic_resolution(text, Error::SmsRemoveMessageFailed),
        ),
        ResolverKind::PhoneAnswer => lift_unit(
            generic_resolution(text, Error::PhoneCallNotAnswered),
        ),
        ResolverKind::PhoneDial => lift_unit(
            generic_resolution(text, Error::PhoneCallNotCalled),
        ),
        ResolverKind::PhoneHangup => lift_unit(
            generic_resolution(text, Error::PhoneCallNotEnded),
        ),
    }
}

/// Applies the resolver named by `kind` to the accumulated response text.
pub fn run_resolver(kind: ResolverKind, text: &str) -> (r: Result<
    ResolvedValue,
    Error,
>)
    ensures
        match r {
            Ok(v) => resolution(kind, text@) == Ok::<ResolvedView, Error>(v@),
            Err(e) => resolution(kind, text@) == Err::<ResolvedView, Error>(e),
        },
{
    match kind {
        ResolverKind::GnssFix => match gnss::parse_gnss_data(text) {
            Ok(d) => Ok(ResolvedValue::Fix(d)),
            Err(e) => Err(e),
        },
        ResolverKind::GnssPower => match gnss::parse_gnss_power(text) {
            Ok(b) => Ok(ResolvedValue::Flag(b)),
            Err(e) => Err(e),
        },
        ResolverKind::GnssSet => match crate::generic_resolver(
            text,
            Error::GnssProblem,
        ) {
            Ok(_) => Ok(ResolvedValue::Unit),
            Err(e) => Err(e),
        },
        ResolverKind::SignalStrength => match hat::parse_signal(text) {
            Ok(v) => Ok(ResolvedValue::Byte(v)),
            Err(e) => Err(e),
        },
        ResolverKind::HatPing => match crate::ack_check(text) {
            true => Ok(ResolvedValue::Flag(true)),
            false => Err(Error::NotResolved),
        },
        ResolverKind::ApnSet => match crate::generic_resolver(
            text,
            Error::GprsApnConfigSetFailed,
        ) {
            Ok(_) => Ok(ResolvedValue::Unit),
            Err(e) => Err(e),
        },
        ResolverKind::ConnOpen => match crate::generic_resolver(
            text,
            Error::GprsConnectionOpenFailed,
        ) {
            Ok(_) => Ok(ResolvedValue::Unit),
            Err(e) => Err(e),
        },
        ResolverKind::ConnClose => match crate::generic_resolver(
            text,
            Error::GprsConnectionCloseFailed,
        ) {
            Ok(_) => Ok(ResolvedValue::Unit),
            Err(e) => Err(e),
        },
        ResolverKind::ConnStatus => match gprs::parse_conn_status(text) {
            Ok(v) => Ok(ResolvedValue::Byte(v)),
            Err(e) => Err(e),
        },
        ResolverKind::HttpOk => match http::http_match_resolver(text, "\r\nOK\r\n") {
            Ok(_) => Ok(ResolvedValue::Unit),
            Err(e) => Err(e),
        },
        ResolverKind::HttpDownload => match http::http_match_resolver(
            text,
            "\r\nDOWNLOAD\r\n",
        ) {
            Ok(_) => Ok(ResolvedValue::Unit),
            Err(e) => Err(e),
        },
        ResolverKind::HttpAction => match http::http_match_resolver(
            text,
            "+HTTPACTION:",
        ) {
            Ok(_) => Ok(ResolvedValue::Unit),
            Err(e) => Err(e),
        },
        ResolverKind::HttpRead => match http::http_read_resolver(
            String::from_str(text),
        ) {
            Ok(s) => Ok(ResolvedValue::Text(s)),
            Err(e) => Err(e),
        },
        ResolverKind::IncomingCallId => match phone::parse_incoming_call(text) {
            Ok(c) => Ok(ResolvedValue::Caller(c)),
            Err(e) => Err(e),
        },
        ResolverKind::SmsSent => match sms::parse_sms_sent(text) {
            Ok(_) => Ok(ResolvedValue::Unit),
            Err(e) => Err(e),
        },
        ResolverKind::SmsTextMode => match crate::generic_resolver(
            text,
            Error::SmsProblemWithSettingTextMode,
        ) {
            Ok(_) => Ok(ResolvedValue::Unit),
            Err(e) => Err(e),
        },
        ResolverKind::SmsList => match sms::parse_sms_list(text) {
            Ok(v) => Ok(ResolvedValue::Inbox(v)),
            Err(e) => Err(e),
        },
        ResolverKind::SmsRemove => match crate::generic_resolver(
            text,
            Error::SmsRemoveMessageFailed,
        ) {
            Ok(_) => Ok(ResolvedValue::Unit),
            Err(e) => Err(e),
        },
        ResolverKind::PhoneAnswer => match crate::generic_resolver(
            text,
            Error::PhoneCallNotAnswered,
        ) {
            Ok(_) => Ok(ResolvedValue::Unit),
            Err(e) => Err(e),
        },
        ResolverKind::PhoneDial => match crate::generic_resolver(
            text,
            Error::PhoneCallNotCalled,
        ) {
            Ok(_) => Ok(ResolvedValue::Unit),
            Err(e) => Err(e),
        },
        ResolverKind::PhoneHangup => match crate::generic_resolver(
            text,
            Error::PhoneCallNotEnded,
        ) {
            Ok(_) => Ok(ResolvedValue::Unit),
            Err(e) => Err(e),
        },
    }
}

} // verus!

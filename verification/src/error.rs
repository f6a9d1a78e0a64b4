//! The error taxonomy of the driver.
//!
//! Every operation reports its failure through [`Error`]. A few variants
//! carry the underlying fault of an outside library (the UART transport,
//! URL parsing, body serialisation); those payload types are declared below
//! so that they can appear in the enum, and the driver core never looks
//! inside them. [`ErrorKind`] is the payload-free image of [`Error`] that
//! callers can match and compare.

use vstd::prelude::*;

pub use rppal::uart::Error as UartFault;
pub use serde_json::Error as JsonFault;
pub use serde_url_params::Error as UrlParamsFault;
pub use url::ParseError as UrlParseFault;

verus! {

/// The transport error of the serial-port library, carried opaquely.
#[verifier::external_type_specification]
#[verifier::external_body]
pub struct ExUartFault(UartFault);

/// The parse error of the URL library, carried opaquely.
#[verifier::external_type_specification]
#[verifier::external_body]
pub struct ExUrlParseFault(UrlParseFault);

/// The serialisation error of the JSON library, carried opaquely.
#[verifier::external_type_specification]
#[verifier::external_body]
pub struct ExJsonFault(JsonFault);

/// The serialisation error of the form-urlencoding library, carried opaquely.
#[verifier::external_type_specification]
#[verifier::external_body]
pub struct ExUrlParamsFault(UrlParamsFault);

/// Returned by the [`Error::kind`] method.
#[derive(Clone, Copy, Debug, PartialEq, Eq, Structural)]
pub enum ErrorKind {
    GnssModuleOff,
    GnssNotFixed,
    GnssProblem,
    GprsApnConfigSetFailed,
    GprsConnectionCloseFailed,
    GprsConnectionOpenFailed,
    GprsHttpRequestFailed,
    GprsNoConnection,
    HatAlreadyOff,
    HatAlreadyOn,
    JsonSerialisationFailed,
    NotResolved,
    PhoneCallNotAnswered,
    PhoneCallNotCalled,
    PhoneCallNotEnded,
    RequestBodyParsingFailed,
    SmsNotSent,
    SmsProblemWithReadingMessages,
    SmsProblemWithSettingTextMode,
    SmsRemoveMessageFailed,
    Uart,
    UrlParse,
}

/// The driver's error enum.
///
/// `NotResolved` is distinguished: it means "the response is not complete
/// yet — keep polling", and it is what a timed-out operation finally
/// returns.
#[derive(Debug)]
pub enum Error {
    GnssModuleOff,
    GnssNotFixed,
    GnssProblem,
    GprsApnConfigSetFailed,
    GprsConnectionCloseFailed,
    GprsConnectionOpenFailed,
    GprsHttpRequestFailed,
    GprsNoConnection,
    HatAlreadyOff,
    HatAlreadyOn,
    JsonSerialisationFailed(JsonFault),
    NotResolved,
    PhoneCallNotAnswered,
    PhoneCallNotCalled,
    PhoneCallNotEnded,
    RequestBodyParsingFailed(UrlParamsFault),
    SmsNotSent,
    SmsProblemWithReadingMessages,
    SmsProblemWithSettingTextMode,
    SmsRemoveMessageFailed,
    Uart(UartFault),
    UrlParse(UrlParseFault),
}

/// The [`ErrorKind`] that classifies a given [`Error`].
pub open spec fn kind_of(e: Error) -> ErrorKind {
    match e {
        Error::GnssModuleOff => ErrorKind::GnssModuleOff,
        Error::GnssNotFixed => ErrorKind::GnssNotFixed,
        Error::GnssProblem => ErrorKind::GnssProblem,
        Error::GprsApnConfigSetFailed => ErrorKind::GprsApnConfigSetFailed,
        Error::GprsConnectionCloseFailed => ErrorKind::GprsConnectionCloseFailed,
        Error::GprsConnectionOpenFailed => ErrorKind::GprsConnectionOpenFailed,
        Error::GprsHttpRequestFailed => ErrorKind::GprsHttpRequestFailed,
        Error::GprsNoConnection => ErrorKind::GprsNoConnection,
        Error::HatAlreadyOff => ErrorKind::HatAlreadyOff,
        Error::HatAlreadyOn => ErrorKind::HatAlreadyOn,
        Error::JsonSerialisationFailed(_) => ErrorKind::JsonSerialisationFailed,
        Error::NotResolved => ErrorKind::NotResolved,
        Error::PhoneCallNotAnswered => ErrorKind::PhoneCallNotAnswered,
        Error::PhoneCallNotCalled => ErrorKind::PhoneCallNotCalled,
        Error::PhoneCallNotEnded => ErrorKind::PhoneCallNotEnded,
        Error::RequestBodyParsingFailed(_) => ErrorKind::RequestBodyParsingFailed,
        Error::SmsNotSent => ErrorKind::SmsNotSent,
        Error::SmsProblemWithReadingMessages => ErrorKind::SmsProblemWithReadingMessages,
        Error::SmsProblemWithSettingTextMode => ErrorKind::SmsProblemWithSettingTextMode,
        Error::SmsRemoveMessageFailed => ErrorKind::SmsRemoveMessageFailed,
        Error::Uart(_) => ErrorKind::Uart,
        Error::UrlParse(_) => ErrorKind::UrlParse,
    }
}

impl Error {
    /// The payload-free kind of this error.
    pub fn kind(&self) -> (r: ErrorKind)
        ensures
            r == kind_of(*self),
    {
        match self {
            Error::GnssModuleOff => ErrorKind::GnssModuleOff,
            Error::GnssNotFixed => ErrorKind::GnssNotFixed,
            Error::GnssProblem => ErrorKind::GnssProblem,
            Error::GprsApnConfigSetFailed => ErrorKind::GprsApnConfigSetFailed,
            Error::GprsConnectionCloseFailed => ErrorKind::GprsConnectionCloseFailed,
            Error::GprsConnectionOpenFailed => ErrorKind::GprsConnectionOpenFailed,
            Error::GprsHttpRequestFailed => ErrorKind::GprsHttpRequestFailed,
            Error::GprsNoConnection => ErrorKind::GprsNoConnection,
            Error::HatAlreadyOff => ErrorKind::HatAlreadyOff,
            Error::HatAlreadyOn => ErrorKind::HatAlreadyOn,
            Error::JsonSerialisationFailed(_) => ErrorKind::JsonSerialisationFailed,
            Error::NotResolved => ErrorKind::NotResolved,
            Error::PhoneCallNotAnswered => ErrorKind::PhoneCallNotAnswered,
            Error::PhoneCallNotCalled => ErrorKind::PhoneCallNotCalled,
            Error::PhoneCallNotEnded => ErrorKind::PhoneCallNotEnded,
            Error::RequestBodyParsingFailed(_) => ErrorKind::RequestBodyParsingFailed,
            Error::SmsNotSent => ErrorKind::SmsNotSent,
            Error::SmsProblemWithReadingMessages => ErrorKind::SmsProblemWithReadingMessages,
            Error::SmsProblemWithSettingTextMode => ErrorKind::SmsProblemWithSettingTextMode,
            Error::SmsRemoveMessageFailed => ErrorKind::SmsRemoveMessageFailed,
            Error::Uart(_) => ErrorKind::Uart,
            Error::UrlParse(_) => ErrorKind::UrlParse,
        }
    }
}

} // verus!

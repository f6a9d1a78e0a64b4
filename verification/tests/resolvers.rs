use rpi_sim868::datetime::Timestamp;
use rpi_sim868::error::{Error, ErrorKind};
use rpi_sim868::gnss;
use rpi_sim868::gprs;
use rpi_sim868::hat;
use rpi_sim868::phone;
use rpi_sim868::sms;
use rpi_sim868::text::{parse_decimal, Decimal};
use rpi_sim868::gprs::ContentType;
use rpi_sim868::http::get_content_type;
use rpi_sim868::resolver::{run_resolver, ResolverKind};
use rpi_sim868::{ack_check, error_check, generic_resolver};

#[test]
fn generic_resolver_error_branch() {
    let r = generic_resolver("junk\r\nERROR\r\n", Error::GnssProblem);
    assert!(matches!(r, Err(Error::GnssProblem)));
    // ERROR wins even when OK is also present
    let r = generic_resolver("\r\nOK\r\n\r\nERROR\r\n", Error::GnssProblem);
    assert!(matches!(r, Err(Error::GnssProblem)));
}

#[test]
fn generic_resolver_ok_branch() {
    let r = generic_resolver("+CGNSPWR: 1\r\n\r\nOK\r\n", Error::GnssProblem);
    assert!(matches!(r, Ok(())));
}

#[test]
fn generic_resolver_not_resolved_branch() {
    let r = generic_resolver("half an ans", Error::GnssProblem);
    assert!(matches!(r, Err(Error::NotResolved)));
    let r = generic_resolver("", Error::GnssProblem);
    assert!(matches!(r, Err(Error::NotResolved)));
}

#[test]
fn terminator_checks() {
    assert!(ack_check("abc\r\nOK\r\nxyz"));
    assert!(!ack_check("OK"));
    assert!(!ack_check("\r\nOK\r"));
    assert!(error_check("\r\nERROR\r\n"));
    assert!(!error_check("\r\nOK\r\n"));
}

#[test]
fn gnss_fix_literal() {
    let text = "+CGNSINF: 1,1,20240115120000.000,50.0647,19.9450,237.1,0.0,0.0,1,,,,,1.1,0.8,0.8,,10,8,,,24,,\r\n\r\nOK\r\n";
    let fix = gnss::parse_gnss_data(text).unwrap();
    assert_eq!(
        fix.lat,
        Decimal { negative: false, mantissa: 500647, scale: 4 }
    );
    assert_eq!(
        fix.lon,
        Decimal { negative: false, mantissa: 199450, scale: 4 }
    );
    assert_eq!(fix.alt, Decimal { negative: false, mantissa: 2371, scale: 1 });
    assert_eq!(
        fix.ground_speed,
        Decimal { negative: false, mantissa: 0, scale: 1 }
    );
    assert_eq!(fix.sats_in_view, 10);
    assert_eq!(fix.sats_in_use, 8);
    assert_eq!(
        fix.utc_datetime,
        Timestamp { year: 2024, month: 1, day: 15, hour: 12, minute: 0, second: 0 }
    );
}

#[test]
fn gnss_not_fixed_literal() {
    let text = "+CGNSINF: 1,0,20240115120000.000,50.0647,19.9450,237.1,0.0,0.0,1,,,,,1.1,0.8,0.8,,10,8,,,24,,\r\n\r\nOK\r\n";
    let r = gnss::parse_gnss_data(text);
    assert!(matches!(r, Err(Error::GnssNotFixed)));
}

#[test]
fn gnss_module_off() {
    let text = "+CGNSINF: 0,0,20240115120000.000,50.0647,19.9450,237.1,0.0,0.0,1,,,,,1.1,0.8,0.8,,10,8,,,24,,\r\n\r\nOK\r\n";
    let r = gnss::parse_gnss_data(text);
    assert!(matches!(r, Err(Error::GnssModuleOff)));
}

#[test]
fn gnss_fix_incomplete_is_not_resolved() {
    assert!(matches!(
        gnss::parse_gnss_data("+CGNS"),
        Err(Error::NotResolved)
    ));
    assert!(matches!(
        gnss::parse_gnss_data("+CGNSINF: 1,1,bad\r\n"),
        Err(Error::NotResolved)
    ));
}

#[test]
fn gnss_status_fields_decide_before_the_full_line() {
    // a short reply already carries the answer: run status zero
    assert!(matches!(
        gnss::parse_gnss_data("+CGNSINF: 0\r\n\r\nOK\r\n"),
        Err(Error::GnssModuleOff)
    ));
    // likewise a short reply with fix status zero
    assert!(matches!(
        gnss::parse_gnss_data("+CGNSINF: 1,0\r\n\r\nOK\r\n"),
        Err(Error::GnssNotFixed)
    ));
    // a short reply whose statuses pass still waits for the full line
    assert!(matches!(
        gnss::parse_gnss_data("+CGNSINF: 1,1\r\n\r\nOK\r\n"),
        Err(Error::NotResolved)
    ));
}

#[test]
fn gnss_power_report() {
    assert_eq!(gnss::parse_gnss_power("+CGNSPWR: 1\r\n\r\nOK\r\n").unwrap(), true);
    assert_eq!(gnss::parse_gnss_power("+CGNSPWR: 0\r\n\r\nOK\r\n").unwrap(), false);
    assert!(matches!(
        gnss::parse_gnss_power("+CGNSPWR: x"),
        Err(Error::NotResolved)
    ));
}

#[test]
fn signal_strength_literal() {
    assert_eq!(hat::parse_signal("+CSQ: 17,99\r\n\r\nOK\r\n").unwrap(), 17);
}

#[test]
fn signal_strength_odd_shapes() {
    assert!(matches!(hat::parse_signal("+CSQ: ,99"), Err(Error::NotResolved)));
    assert!(matches!(hat::parse_signal("no report"), Err(Error::NotResolved)));
    assert!(matches!(hat::parse_signal("+CSQ: 999,1"), Err(Error::NotResolved)));
}

#[test]
fn incoming_call_line() {
    let r = phone::parse_incoming_call("\r\n+CLIP: \"+4799999999\",145,\"\",0,\"\",0\r\n");
    assert_eq!(r.unwrap().caller_id, "+4799999999");
    assert!(matches!(
        phone::parse_incoming_call("RING\r\n"),
        Err(Error::NotResolved)
    ));
}

#[test]
fn bearer_status_report() {
    assert_eq!(gprs::parse_conn_status("+SAPBR: 1,1,\"0.0.0.0\"\r\n\r\nOK\r\n").unwrap(), 1);
    assert_eq!(gprs::parse_conn_status("+SAPBR: 1,3,\"0.0.0.0\"\r\n\r\nOK\r\n").unwrap(), 3);
    assert!(matches!(
        gprs::parse_conn_status("\r\nERROR\r\n"),
        Err(Error::GprsNoConnection)
    ));
    assert!(matches!(
        gprs::parse_conn_status("+SAPBR: 1\r\n"),
        Err(Error::NotResolved)
    ));
}

#[test]
fn sms_sent_acknowledgement() {
    assert!(matches!(sms::parse_sms_sent("+CMGS: 4\r\n\r\nOK\r\n"), Ok(())));
    assert!(matches!(
        sms::parse_sms_sent("\r\nERROR\r\n"),
        Err(Error::SmsNotSent)
    ));
    assert!(matches!(sms::parse_sms_sent("+CMGS: "), Err(Error::NotResolved)));
}

#[test]
fn sms_listing_two_messages() {
    let text = "+CMGL: 1,\"REC UNREAD\",\"+48123456789\",\"\",\"24/01/15,12:30:45+04\"\r\nHello there\r\n+CMGL: 2,\"REC READ\",\"+48000111222\",\"\",\"23/12/31,23:59:58+04\"\r\nSecond one\r\n\r\nOK\r\n";
    let msgs = sms::parse_sms_list(text).unwrap();
    assert_eq!(msgs.len(), 2);
    assert_eq!(msgs[0].index, 1);
    assert_eq!(msgs[0].sender, "+48123456789");
    assert_eq!(msgs[0].text, "Hello there");
    assert_eq!(
        msgs[0].datetime,
        Timestamp { year: 2024, month: 1, day: 15, hour: 12, minute: 30, second: 45 }
    );
    assert_eq!(msgs[1].index, 2);
    assert_eq!(msgs[1].sender, "+48000111222");
    assert_eq!(msgs[1].text, "Second one");
    assert_eq!(
        msgs[1].datetime,
        Timestamp { year: 2023, month: 12, day: 31, hour: 23, minute: 59, second: 58 }
    );
}

#[test]
fn sms_listing_outcomes() {
    assert!(matches!(
        sms::parse_sms_list("\r\nERROR\r\n"),
        Err(Error::SmsProblemWithReadingMessages)
    ));
    assert!(matches!(
        sms::parse_sms_list("+CMGL: 1,..."),
        Err(Error::NotResolved)
    ));
    // a complete but empty listing: no records at all
    let msgs = sms::parse_sms_list("\r\nOK\r\n").unwrap();
    assert_eq!(msgs.len(), 0);
    // a malformed record is skipped, not a fault
    let msgs = sms::parse_sms_list("+CMGL: x,gibberish\r\n\r\nOK\r\n").unwrap();
    assert_eq!(msgs.len(), 0);
}

#[test]
fn decimal_parsing() {
    assert_eq!(
        parse_decimal("-12.345"),
        Some(Decimal { negative: true, mantissa: 12345, scale: 3 })
    );
    assert_eq!(
        parse_decimal("237.1"),
        Some(Decimal { negative: false, mantissa: 2371, scale: 1 })
    );
    assert_eq!(
        parse_decimal("42"),
        Some(Decimal { negative: false, mantissa: 42, scale: 0 })
    );
    assert_eq!(
        parse_decimal(".5"),
        Some(Decimal { negative: false, mantissa: 5, scale: 1 })
    );
    assert_eq!(parse_decimal(""), None);
    assert_eq!(parse_decimal("-"), None);
    assert_eq!(parse_decimal("1.2.3"), None);
    assert_eq!(parse_decimal("abc"), None);
    assert_eq!(parse_decimal("12345678901234567890"), None);
}

#[test]
fn calendar_validity() {
    assert!(Timestamp::make(2024, 2, 29, 0, 0, 0).is_some());
    assert!(Timestamp::make(2023, 2, 29, 0, 0, 0).is_none());
    assert!(Timestamp::make(1900, 2, 29, 0, 0, 0).is_none());
    assert!(Timestamp::make(2000, 2, 29, 0, 0, 0).is_some());
    assert!(Timestamp::make(2024, 4, 31, 0, 0, 0).is_none());
    assert!(Timestamp::make(2024, 1, 15, 24, 0, 0).is_none());
    assert!(Timestamp::make(2024, 1, 15, 23, 60, 0).is_none());
}

#[test]
fn each_ack_resolver_names_its_own_error() {
    let failed = "\r\nERROR\r\n";
    let cases = [
        (ResolverKind::GnssSet, ErrorKind::GnssProblem),
        (ResolverKind::ApnSet, ErrorKind::GprsApnConfigSetFailed),
        (ResolverKind::ConnOpen, ErrorKind::GprsConnectionOpenFailed),
        (ResolverKind::ConnClose, ErrorKind::GprsConnectionCloseFailed),
        (ResolverKind::ConnStatus, ErrorKind::GprsNoConnection),
        (ResolverKind::HttpOk, ErrorKind::GprsHttpRequestFailed),
        (ResolverKind::HttpDownload, ErrorKind::GprsHttpRequestFailed),
        (ResolverKind::HttpAction, ErrorKind::GprsHttpRequestFailed),
        (ResolverKind::HttpRead, ErrorKind::GprsHttpRequestFailed),
        (ResolverKind::SmsSent, ErrorKind::SmsNotSent),
        (ResolverKind::SmsTextMode, ErrorKind::SmsProblemWithSettingTextMode),
        (ResolverKind::SmsList, ErrorKind::SmsProblemWithReadingMessages),
        (ResolverKind::SmsRemove, ErrorKind::SmsRemoveMessageFailed),
        (ResolverKind::PhoneAnswer, ErrorKind::PhoneCallNotAnswered),
        (ResolverKind::PhoneDial, ErrorKind::PhoneCallNotCalled),
        (ResolverKind::PhoneHangup, ErrorKind::PhoneCallNotEnded),
    ];
    for (kind, expected) in cases {
        let r = run_resolver(kind, failed);
        assert_eq!(r.unwrap_err().kind(), expected);
    }
}

#[test]
fn http_download_resolver_waits_for_the_prompt() {
    assert!(run_resolver(ResolverKind::HttpDownload, "\r\nDOWNLOAD\r\n").is_ok());
    assert!(matches!(
        run_resolver(ResolverKind::HttpDownload, "\r\nOK\r\n"),
        Err(Error::NotResolved)
    ));
    assert!(run_resolver(ResolverKind::HttpAction, "+HTTPACTION: 1,200,13\r\n").is_ok());
}

#[test]
fn http_read_resolver_returns_the_whole_text() {
    let text = String::from("payload\r\nOK\r\n");
    let r = rpi_sim868::http::http_read_resolver(text.clone()).unwrap();
    assert_eq!(r, text);
    assert!(matches!(
        rpi_sim868::http::http_request_resolver(String::from("nothing yet")),
        Err(Error::NotResolved)
    ));
    assert!(rpi_sim868::http::http_request_resolver(String::from("\r\nOK\r\n")).is_ok());
}

#[test]
fn content_type_values() {
    assert_eq!(get_content_type(&Some(ContentType::Json)), "application/json");
    assert_eq!(
        get_content_type(&Some(ContentType::FormUrlencoded)),
        "application/x-www-form-urlencoded"
    );
    assert_eq!(get_content_type(&None), "application/x-www-form-urlencoded");
}

#[test]
fn error_kinds() {
    assert_eq!(Error::GnssNotFixed.kind(), ErrorKind::GnssNotFixed);
    assert_eq!(Error::NotResolved.kind(), ErrorKind::NotResolved);
    assert_eq!(Error::HatAlreadyOff.kind(), ErrorKind::HatAlreadyOff);
    assert_eq!(Error::SmsNotSent.kind(), ErrorKind::SmsNotSent);
}

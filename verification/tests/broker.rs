use rpi_sim868::error::{Error, ErrorKind};
use rpi_sim868::gprs::{ApnConfig, ContentType, HttpPhase, Request, RequestMethod, GPRS};
use rpi_sim868::hat::{turn_on_resolution, Hat, HatOffPhase};
use rpi_sim868::resolver::{ResolvedValue, ResolverKind};
use rpi_sim868::serial_port::{
    SerialPort, SessionPhase, TaskPriority, UartAction, UartOp,
};
use rpi_sim868::sms::{MessageStorage, SMS};
use rpi_sim868::SIM868;

#[test]
fn process_session_runs_flush_write_poll() {
    let mut sp = SerialPort::new();
    let id = sp.enqueue_task(TaskPriority::NORMAL).unwrap();
    assert!(sp.is_turn(id));
    assert!(sp.uart_free());
    let mut session = sp.process(
        id,
        String::from("AT+HTTPTERM\n"),
        ResolverKind::HttpOk,
        None,
    );
    // the lock is taken for the whole session
    assert!(!sp.uart_free());
    assert!(sp.holds_uart(id));
    // flush both directions first: no stale bytes survive into the buffer
    assert_eq!(session.next_action(), UartAction::FlushBoth);
    session.on_flush_done();
    assert_eq!(session.next_action(), UartAction::SendCommand);
    assert_eq!(session.cmd, "AT+HTTPTERM\n");
    session.on_write_done();
    assert_eq!(session.next_action(), UartAction::ReadChunk);
    assert_eq!(session.buffer.len(), 0);
    session.on_chunk(b"\r\nOK\r\n".to_vec(), 25);
    assert_eq!(session.next_action(), UartAction::Finish);
    let outcome = sp.complete(session);
    assert!(matches!(outcome, Ok(ResolvedValue::Unit)));
    // the lock is released once the call returns
    assert!(sp.uart_free());
    let len_before_dequeue = sp.queue_len();
    assert_eq!(len_before_dequeue, 1);
    sp.dequeue_task(id);
    assert_eq!(sp.queue_len(), 0);
}

#[test]
fn process_session_releases_lock_on_error() {
    let mut sp = SerialPort::new();
    let id = sp.enqueue_task(TaskPriority::NORMAL).unwrap();
    let mut session = sp.process(
        id,
        String::from("AT+HTTPINIT\n"),
        ResolverKind::HttpOk,
        None,
    );
    session.on_flush_done();
    session.on_write_done();
    session.on_chunk(b"\r\nERROR\r\n".to_vec(), 10);
    let outcome = sp.complete(session);
    assert!(matches!(outcome, Err(Error::GprsHttpRequestFailed)));
    assert!(sp.uart_free());
}

#[test]
fn write_session_never_polls() {
    let mut sp = SerialPort::new();
    let id = sp.enqueue_task(TaskPriority::HIGH).unwrap();
    let mut session = sp.write(id, String::from("AT+CPOWD=0\n"));
    assert_eq!(session.next_action(), UartAction::FlushInput);
    session.on_flush_done();
    assert_eq!(session.next_action(), UartAction::SendCommand);
    session.on_write_done();
    assert_eq!(session.next_action(), UartAction::Finish);
    let outcome = sp.complete(session);
    assert!(matches!(outcome, Ok(ResolvedValue::Unit)));
    assert!(sp.uart_free());
}

#[test]
fn unresolved_session_times_out_with_not_resolved() {
    let mut sp = SerialPort::new();
    let id = sp.enqueue_task(TaskPriority::NORMAL).unwrap();
    let mut session = sp.process(
        id,
        String::from("AT\n"),
        ResolverKind::HatPing,
        None,
    );
    session.on_flush_done();
    session.on_write_done();
    // silence within the timeout keeps the poll going
    session.on_chunk(Vec::new(), 400);
    assert_eq!(session.phase, SessionPhase::Polling);
    session.on_chunk(Vec::new(), 900);
    assert_eq!(session.phase, SessionPhase::Polling);
    // the first poll past the timeout ends the call
    session.on_chunk(Vec::new(), 1001);
    assert_eq!(session.phase, SessionPhase::Finished);
    let outcome = sp.complete(session);
    assert!(matches!(outcome, Err(Error::NotResolved)));
    assert!(sp.uart_free());
}

#[test]
fn invalid_utf8_is_absorbed_not_a_failure() {
    let mut sp = SerialPort::new();
    let id = sp.enqueue_task(TaskPriority::NORMAL).unwrap();
    let mut session = sp.process(
        id,
        String::from("AT\n"),
        ResolverKind::HatPing,
        None,
    );
    session.on_flush_done();
    session.on_write_done();
    // broken bytes read as empty text: the resolver just keeps waiting
    session.on_chunk(vec![0xFF, 0xFE, 0x80], 50);
    assert_eq!(session.phase, SessionPhase::Polling);
    session.on_chunk(vec![0xC0], 1500);
    let outcome = sp.complete(session);
    assert!(matches!(outcome, Err(Error::NotResolved)));
}

#[test]
fn transport_fault_ends_a_session_and_releases_the_lock() {
    let mut sp = SerialPort::new();
    let id = sp.enqueue_task(TaskPriority::NORMAL).unwrap();
    let mut session = sp.process(
        id,
        String::from("AT\n"),
        ResolverKind::HatPing,
        None,
    );
    session.on_flush_done();
    session.on_uart_failure(Error::Uart(rppal::uart::Error::InvalidValue));
    assert_eq!(session.phase, SessionPhase::Finished);
    let outcome = sp.complete(session);
    assert_eq!(outcome.unwrap_err().kind(), ErrorKind::Uart);
    assert!(sp.uart_free());
}

#[test]
fn read_session_decodes_an_incoming_call() {
    let mut sp = SerialPort::new();
    let id = sp.enqueue_task(TaskPriority::NORMAL).unwrap();
    let mut session = sp.read(id, ResolverKind::IncomingCallId, Some(4000));
    assert_eq!(session.next_action(), UartAction::ReadChunk);
    session.on_chunk(b"\r\n+CLIP: \"+4812345\",145\r\n".to_vec(), 30);
    let outcome = sp.complete(session);
    match outcome {
        Ok(ResolvedValue::Caller(c)) => assert_eq!(c.caller_id, "+4812345"),
        other => panic!("unexpected outcome: {:?}", other),
    }
    assert!(sp.uart_free());
}

#[test]
fn accumulated_fragments_resolve_together() {
    let mut sp = SerialPort::new();
    let id = sp.enqueue_task(TaskPriority::NORMAL).unwrap();
    let mut session = sp.process(
        id,
        String::from("AT+CSQ\n"),
        ResolverKind::SignalStrength,
        None,
    );
    session.on_flush_done();
    session.on_write_done();
    session.on_chunk(b"+CS".to_vec(), 10);
    assert_eq!(session.phase, SessionPhase::Polling);
    session.on_chunk(b"Q: 17,99\r\n".to_vec(), 20);
    let outcome = sp.complete(session);
    assert!(matches!(outcome, Ok(ResolvedValue::Byte(17))));
}

#[test]
fn granted_task_keeps_its_turn_under_high_arrivals() {
    let mut sp = SerialPort::new();
    let n1 = sp.enqueue_task(TaskPriority::NORMAL).unwrap();
    assert!(sp.claim_turn(n1));
    // first step of a multi-step flow
    let mut step1 = sp.process(
        n1,
        String::from("AT+CMGF=1\n"),
        ResolverKind::SmsTextMode,
        None,
    );
    step1.on_flush_done();
    step1.on_write_done();
    step1.on_chunk(b"\r\nOK\r\n".to_vec(), 10);
    sp.complete(step1).unwrap();
    // a HIGH task arrives between the steps
    let h = sp.enqueue_task(TaskPriority::HIGH).unwrap();
    // the dispatched task keeps its turn; the arrival waits
    assert!(sp.is_turn(n1));
    assert!(!sp.is_turn(h));
    assert!(!sp.claim_turn(h));
    // the second step proceeds undisturbed
    let mut step2 = sp.process(
        n1,
        String::from("AT+CMGS=\"+47\"\nHi\u{1A}\n"),
        ResolverKind::SmsSent,
        Some(20000),
    );
    step2.on_flush_done();
    step2.on_write_done();
    step2.on_chunk(b"+CMGS: 1\r\n\r\nOK\r\n".to_vec(), 10);
    sp.complete(step2).unwrap();
    // only once the task dequeues does the HIGH task's turn begin
    sp.dequeue_task(n1);
    assert!(sp.is_turn(h));
    assert!(sp.claim_turn(h));
}

#[test]
fn service_order_with_a_mid_flow_high_arrival() {
    // three NORMAL tasks wait; the first is dispatched, then a HIGH task
    // arrives: the running task completes, then the HIGH one, then the
    // remaining NORMALs in arrival order
    let mut sp = SerialPort::new();
    let n1 = sp.enqueue_task(TaskPriority::NORMAL).unwrap();
    let n2 = sp.enqueue_task(TaskPriority::NORMAL).unwrap();
    let n3 = sp.enqueue_task(TaskPriority::NORMAL).unwrap();
    assert!(sp.claim_turn(n1));
    let h = sp.enqueue_task(TaskPriority::HIGH).unwrap();
    let mut order = Vec::new();
    for (label, id) in [(1u8, n1), (4, h), (2, n2), (3, n3)] {
        assert!(sp.is_turn(id));
        assert!(sp.claim_turn(id));
        order.push(label);
        sp.dequeue_task(id);
    }
    assert_eq!(order, vec![1, 4, 2, 3]);
    assert_eq!(sp.queue_len(), 0);
}

#[test]
fn http_post_flow_serialises_the_command_sequence() {
    let sim = SIM868::new();
    let req = Request {
        content_type: Some(ContentType::Json),
        data: String::from("{\"a\":1}"),
        headers: Some(String::from("my-header: 1")),
        method: RequestMethod::POST,
        url: String::from("http://httpbin.org/post"),
    };
    let mut flow = sim.gprs.request(req);
    let ok = || Ok(ResolvedValue::Unit);
    // guard terminate, in case an earlier session is still open
    assert_eq!(flow.current_request().cmd, "AT+HTTPTERM\n");
    flow.advance(ok());
    // bearer probe; status 1 means it is already open
    assert_eq!(flow.current_request().cmd, "AT+SAPBR=2,1\n");
    flow.advance(Ok(ResolvedValue::Byte(1)));
    assert_eq!(flow.current_request().cmd, "AT+HTTPINIT\n");
    flow.advance(ok());
    assert_eq!(flow.current_request().cmd, "AT+HTTPPARA=CID,1\n");
    flow.advance(ok());
    assert_eq!(
        flow.current_request().cmd,
        "AT+HTTPPARA=URL,http://httpbin.org/post\n"
    );
    flow.advance(ok());
    assert_eq!(
        flow.current_request().cmd,
        "AT+HTTPPARA=USERDATA,\"my-header: 1\"\n"
    );
    flow.advance(ok());
    assert_eq!(
        flow.current_request().cmd,
        "AT+HTTPPARA=CONTENT,application/json\n"
    );
    flow.advance(ok());
    // the body is seven bytes long
    let data0 = flow.current_request();
    assert_eq!(data0.cmd, "AT+HTTPDATA=7,6000\n");
    assert_eq!(data0.resolver, ResolverKind::HttpDownload);
    flow.advance(ok());
    let upload = flow.current_request();
    assert_eq!(upload.op, UartOp::WriteOnly);
    assert_eq!(upload.cmd, "{\"a\":1}");
    flow.advance(ok());
    let ack = flow.current_request();
    assert_eq!(ack.op, UartOp::ReadOnly);
    flow.advance(ok());
    assert_eq!(flow.current_request().cmd, "AT+HTTPACTION=1\n");
    flow.advance(ok());
    assert_eq!(flow.current_request().cmd, "AT+HTTPREAD\n");
    flow.advance(Ok(ResolvedValue::Text(String::from("response body"))));
    assert_eq!(flow.current_request().cmd, "AT+HTTPTERM\n");
    flow.advance(ok());
    // the bearer is closed whatever happened before
    assert_eq!(flow.current_request().cmd, "AT+CGATT=0\n");
    flow.advance(ok());
    assert!(flow.is_done());
    assert_eq!(flow.outcome().unwrap(), "response body");
}

#[test]
fn http_get_flow_merges_the_query_and_opens_the_bearer() {
    let gprs = GPRS::new();
    let req = Request {
        content_type: None,
        data: String::from("lat=50.06&lon=19.94"),
        headers: None,
        method: RequestMethod::GET,
        url: String::from("http://example.org/track?old=1"),
    };
    let mut flow = gprs.request(req);
    flow.advance(Ok(ResolvedValue::Unit));
    // status 3 means the bearer is closed and must be opened
    flow.advance(Ok(ResolvedValue::Byte(3)));
    assert_eq!(flow.current_request().cmd, "AT+SAPBR=1,1\n");
    flow.advance(Ok(ResolvedValue::Unit));
    flow.advance(Ok(ResolvedValue::Unit));
    flow.advance(Ok(ResolvedValue::Unit));
    // the encoded data replaces the old query
    assert_eq!(
        flow.current_request().cmd,
        "AT+HTTPPARA=URL,http://example.org/track?lat=50.06&lon=19.94\n"
    );
    // a GET has no body upload: the URL line is the last opening command
    flow.advance(Ok(ResolvedValue::Unit));
    assert_eq!(flow.current_request().cmd, "AT+HTTPACTION=0\n");
}

#[test]
fn http_flow_surfaces_the_first_failing_step() {
    let gprs = GPRS::new();
    let req = Request {
        content_type: None,
        data: String::new(),
        headers: None,
        method: RequestMethod::GET,
        url: String::from("http://example.org/"),
    };
    let mut flow = gprs.request(req);
    flow.advance(Ok(ResolvedValue::Unit));
    // the bearer probe fails: the flow still closes the bearer, and the
    // probe's error is the outcome
    flow.advance(Err(Error::GprsNoConnection));
    assert_eq!(flow.phase, HttpPhase::Closing);
    assert_eq!(flow.current_request().cmd, "AT+CGATT=0\n");
    flow.advance(Ok(ResolvedValue::Unit));
    assert!(matches!(flow.outcome(), Err(Error::GprsNoConnection)));
}

#[test]
fn httpterm_guard_is_safe_without_a_session() {
    let gprs = GPRS::new();
    let req = Request {
        content_type: None,
        data: String::new(),
        headers: None,
        method: RequestMethod::HEAD,
        url: String::from("http://example.org/"),
    };
    let mut flow = gprs.request(req);
    assert_eq!(flow.current_request().cmd, "AT+HTTPTERM\n");
    // no session was open, so the modem answers ERROR; the guard
    // swallows it and the flow continues unharmed
    flow.advance(Err(Error::GprsHttpRequestFailed));
    assert_eq!(flow.phase, HttpPhase::ConnStatus);
    assert_eq!(flow.current_request().cmd, "AT+SAPBR=2,1\n");
}

#[test]
fn hat_off_maps_silence_to_already_off() {
    let hat = Hat::new();
    let mut flow = hat.turn_off();
    let probe = flow.current_request();
    assert_eq!(probe.cmd, "AT\n");
    assert_eq!(probe.priority, TaskPriority::HIGH);
    assert_eq!(probe.timeout_ms, Some(2000));
    // no bytes within the two-second timeout: the board is already off
    flow.advance(Err(Error::NotResolved));
    assert_eq!(flow.phase, HatOffPhase::Done);
    let out = flow.outcome();
    assert!(matches!(out, Err(Error::HatAlreadyOff)));
}

#[test]
fn hat_off_powers_down_a_live_board() {
    let hat = Hat::new();
    let mut flow = hat.turn_off();
    flow.advance(Ok(ResolvedValue::Flag(true)));
    let down = flow.current_request();
    assert_eq!(down.cmd, "AT+CPOWD=0\n");
    assert_eq!(down.op, UartOp::WriteOnly);
    flow.advance(Ok(ResolvedValue::Unit));
    assert!(matches!(flow.outcome(), Ok(())));
}

#[test]
fn hat_on_decision() {
    assert!(matches!(
        turn_on_resolution(Ok(ResolvedValue::Flag(true))),
        Err(Error::HatAlreadyOn)
    ));
    // silence means the board is off: pulse the power line
    assert!(matches!(turn_on_resolution(Err(Error::NotResolved)), Ok(())));
    let r = turn_on_resolution(Err(Error::GnssProblem));
    assert_eq!(r.unwrap_err().kind(), ErrorKind::GnssProblem);
}

#[test]
fn apn_init_sequence_and_first_error() {
    let gprs = GPRS::new();
    let seq = gprs.init(ApnConfig {
        apn: String::from("internet"),
        user: String::from("u"),
        password: String::from("p"),
    });
    assert_eq!(seq.steps.len(), 4);
    assert_eq!(seq.steps[0].cmd, "AT+SAPBR=3,1,Contype,GPRS\n");
    assert_eq!(seq.steps[1].cmd, "AT+SAPBR=3,1,APN,\"internet\"\n");
    assert_eq!(seq.steps[2].cmd, "AT+SAPBR=3,1,USER,\"u\"\n");
    assert_eq!(seq.steps[3].cmd, "AT+SAPBR=3,1,PWD,\"p\"\n");
    // a run that goes through returns the last step's value
    let mut all_ok = gprs.init(ApnConfig {
        apn: String::from("internet"),
        user: String::new(),
        password: String::new(),
    });
    for _ in 0..4 {
        assert!(!all_ok.is_done());
        all_ok.on_result(Ok(ResolvedValue::Unit));
    }
    assert!(all_ok.is_done());
    assert!(matches!(all_ok.outcome, Some(Ok(ResolvedValue::Unit))));
    // the first failing step ends the flow with its error
    let mut failing = seq;
    failing.on_result(Ok(ResolvedValue::Unit));
    failing.on_result(Err(Error::GprsApnConfigSetFailed));
    assert!(failing.is_done());
    assert!(matches!(
        failing.outcome,
        Some(Err(Error::GprsApnConfigSetFailed))
    ));
}

#[test]
fn sms_send_plan() {
    let sms = SMS::new();
    let seq = sms.send("+4799999999", "Hello!");
    assert_eq!(seq.steps.len(), 2);
    assert_eq!(seq.steps[0].cmd, "AT+CMGF=1\n");
    assert_eq!(seq.steps[1].cmd, "AT+CMGS=\"+4799999999\"\nHello!\u{1A}\n");
    assert_eq!(seq.steps[1].resolver, ResolverKind::SmsSent);
    assert_eq!(seq.steps[1].timeout_ms, Some(20000));
}

#[test]
fn sms_listing_and_removal_plans() {
    let sms = SMS::new();
    let unread = sms.get_messages(MessageStorage::UNREAD);
    assert_eq!(unread.steps[1].cmd, "AT+CMGL=\"REC UNREAD\"\n");
    let all = sms.get_messages(MessageStorage::ALL);
    assert_eq!(all.steps[1].cmd, "AT+CMGL=\"ALL\"\n");
    let del = sms.remove_all_messages(MessageStorage::READ);
    assert_eq!(del.steps[1].cmd, "AT+CMGDA=\"DEL READ\"\n");
    let one = sms.remove_message(7);
    assert_eq!(one.cmd, "AT+CMGD=7\n");
    let top = sms.remove_message(255);
    assert_eq!(top.cmd, "AT+CMGD=255\n");
}

#[test]
fn feature_plans_carry_their_priorities() {
    let sim = SIM868::new();
    assert_eq!(sim.phone.call("+47123").cmd, "ATD+47123;\n");
    assert_eq!(sim.phone.call("+47123").priority, TaskPriority::NORMAL);
    assert_eq!(sim.phone.end_call().cmd, "ATH\n");
    assert_eq!(sim.phone.end_call().priority, TaskPriority::HIGH);
    assert_eq!(sim.phone.answer().cmd, "ATA\n");
    assert_eq!(sim.phone.answer().priority, TaskPriority::HIGH);
    let listen = sim.phone.get_incoming_call();
    assert_eq!(listen.op, UartOp::ReadOnly);
    assert_eq!(listen.timeout_ms, Some(4000));
    assert_eq!(sim.gnss.is_on().cmd, "AT+CGNSPWR?\n");
    assert_eq!(sim.gnss.turn_on().cmd, "AT+CGNSPWR=1\n");
    assert_eq!(sim.gnss.turn_off().cmd, "AT+CGNSPWR=0\n");
    assert_eq!(sim.gnss.get_data().cmd, "AT+CGNSINF\n");
    assert_eq!(sim.hat.is_on().cmd, "AT\n");
    assert_eq!(sim.hat.network_strength().cmd, "AT+CSQ\n");
    assert_eq!(sim.gprs.close_connection().cmd, "AT+CGATT=0\n");
}

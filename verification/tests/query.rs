use std::collections::VecDeque;

use netsnmp::error::Error;
use netsnmp::msg::Msg;
use netsnmp::oid::Oid;
use netsnmp::pdu::Pdu;
use netsnmp::session::SessionInfo;
use netsnmp::session::SessionPtr;
use netsnmp::single_session::Action;
use netsnmp::single_session::Event;
use netsnmp::single_session::Outcome;
use netsnmp::single_session::Phase;
use netsnmp::single_session::SingleSession;
use netsnmp::single_session::SingleSessionPtr;
use netsnmp::single_session::Stage;
use netsnmp::transport::TransportPtr;
use netsnmp::value::Value;
use netsnmp::variable::Variable;
use netsnmp::variable::VariablePtr;
use netsnmp::varlist::VarList;

/// What the stubbed protocol engine does when it is next asked to work.
enum Reply {
    /// Calls the hook with a received message.
    Message(Pdu),
    /// Calls the hook with a timeout.
    GiveUp,
    /// The clock runs out, but the engine only sends the request again.
    Retransmit,
    /// Data arrives that completes nothing.
    Noise,
    /// Calls the hook with this operation code and no message.
    Op(i32),
}

struct Stub {
    needs_probe: bool,
    probe_goes_out: bool,
    probe_is_good: bool,
    send_works: bool,
    replies: VecDeque<Reply>,
    probes: usize,
    probe_checks: usize,
    sent: Vec<Pdu>,
    processed: Vec<Pdu>,
    waits: usize,
    hook_errors: Vec<i32>,
}

impl Stub {
    fn new(replies: Vec<Reply>) -> Stub {
        Stub {
            needs_probe: true,
            probe_goes_out: true,
            probe_is_good: true,
            send_works: true,
            replies: replies.into(),
            probes: 0,
            probe_checks: 0,
            sent: Vec::new(),
            processed: Vec::new(),
            waits: 0,
            hook_errors: Vec::new(),
        }
    }

    fn work(&mut self, session: &mut SingleSessionPtr) {
        match self.replies.pop_front() {
            Some(Reply::Message(pdu)) => session.deliver(1, Some(pdu.as_raw())).unwrap(),
            Some(Reply::GiveUp) => session.deliver(2, None).unwrap(),
            Some(Reply::Op(op)) => {
                if let Err(Error::InvalidCallbackOp(code)) = session.deliver(op, None) {
                    self.hook_errors.push(code);
                }
            }
            Some(Reply::Retransmit) | Some(Reply::Noise) | None => {}
        }
    }
}

fn session(flagged: bool) -> SingleSessionPtr {
    let mut info = SessionPtr::new();
    info.peername = Some(String::from("192.0.2.1"));
    info.set_async_probe(flagged);
    SingleSessionPtr::new(info, TransportPtr { sock: 7, flags: 0 })
}

fn octet_response(text: &[u8]) -> Pdu {
    let mut list = VarList::new();
    list.push(
        VariablePtr::new(
            Oid::from_str("1.3.6.1.2.1.1.1.0").unwrap(),
            0x04,
            text.to_vec(),
        )
        .to_owned(),
    );
    Pdu::from_parts(
        162,
        1,
        0,
        0,
        0,
        vec![],
        Oid::empty(),
        0,
        0,
        [0; 4],
        list,
        vec![],
    )
}

fn message(command: i32) -> Pdu {
    Pdu::from_parts(
        command,
        3,
        0,
        0,
        0,
        vec![],
        Oid::empty(),
        0,
        0,
        [0; 4],
        VarList::new(),
        vec![],
    )
}

/// Runs one query to its end against the stub, doing what the machine asks.
fn query(session: &mut SingleSessionPtr, stub: &mut Stub, pdu: Pdu) -> (Result<Pdu, Error>, Option<Pdu>) {
    let mut action = session.begin(pdu);
    loop {
        action = match action {
            Action::CheckProbe => {
                stub.probe_checks += 1;
                session.handle(Event::ProbeNeeded(stub.needs_probe))
            }
            Action::AwaitWritable => session.handle(Event::Writable),
            Action::SendProbe => {
                stub.probes += 1;
                session.handle(Event::ProbeSent(stub.probe_goes_out))
            }
            Action::Send => {
                if stub.send_works {
                    stub.sent.push(session.outgoing().unwrap().to_owned());
                    session.handle(Event::Sent)
                } else {
                    session.handle(Event::SendFailed(Error::General(String::from(
                        "no route",
                    ))))
                }
            }
            Action::Wait => {
                stub.waits += 1;
                let timed_out = matches!(
                    stub.replies.front(),
                    Some(Reply::GiveUp) | Some(Reply::Retransmit)
                );
                assert!(!stub.replies.is_empty(), "the stub has nothing left to say");
                session.handle(Event::Woke {
                    timed_out,
                    readable: !timed_out,
                })
            }
            Action::DriveTimeout | Action::Multiplex => {
                stub.work(session);
                session.handle(Event::EngineReturned)
            }
            Action::ProcessProbe(reply) => {
                stub.processed.push(reply);
                session.handle(Event::ProbeProcessed(stub.probe_is_good))
            }
            Action::Finish { outcome, unsent } => return (outcome.into_result(), unsent),
            Action::Unexpected => panic!("the machine did not expect what it asked for"),
        };
    }
}

fn get(session: &mut SingleSessionPtr, stub: &mut Stub, oid: &Oid) -> Result<Option<Variable>, Error> {
    let (result, unsent) = query(session, stub, Pdu::get_request(oid));
    drop(unsent);
    Ok(result?.first_variable())
}

fn text_of(err: &Error) -> String {
    err.to_string()
}

#[test]
fn get_returns_the_delivered_octet_string() {
    let mut session = session(false);
    let mut stub = Stub::new(vec![Reply::Message(octet_response(b"test-system"))]);
    let oid = Oid::from_str("1.3.6.1.2.1.1.1.0").unwrap();
    let var = get(&mut session, &mut stub, &oid).unwrap().unwrap();
    assert_eq!(var.get_value(), Ok(Value::OctetStr(b"test-system".to_vec())));
    assert_eq!(var.get_name(), oid);
    assert_eq!(stub.sent.len(), 1);
    assert_eq!(stub.sent[0].command().unwrap(), Msg::Get);
    assert_eq!(
        stub.sent[0].first_variable().unwrap().get_name(),
        oid
    );
    assert_eq!(stub.probes, 0);
    assert_eq!(stub.probe_checks, 0);
    assert_eq!(session.phase(), Phase::Complete);
    assert!(session.outgoing().is_none());
}

#[test]
fn timeout_is_reported_and_the_session_stays_usable() {
    let mut session = session(false);
    let mut stub = Stub::new(vec![Reply::Retransmit, Reply::Retransmit, Reply::GiveUp]);
    let oid = Oid::from_str("1.3.6.1.2.1.1.1.0").unwrap();
    match get(&mut session, &mut stub, &oid) {
        Err(Error::General(text)) => assert_eq!(text, "timeout"),
        other => panic!("{:?}", other.map(|v| v.is_some())),
    }
    assert_eq!(stub.waits, 3);
    assert_eq!(session.phase(), Phase::Complete);
    assert_eq!(session.session().peername(), Some(String::from("192.0.2.1")));

    stub.replies.push_back(Reply::Message(octet_response(b"back again")));
    let var = get(&mut session, &mut stub, &oid).unwrap().unwrap();
    assert_eq!(var.get_value(), Ok(Value::OctetStr(b"back again".to_vec())));
    assert_eq!(stub.sent.len(), 2);
}

#[test]
fn response_without_variables_gives_none() {
    let mut session = session(false);
    let mut stub = Stub::new(vec![Reply::Message(message(162))]);
    let oid = Oid::from_slice(&[1, 3]);
    assert!(get(&mut session, &mut stub, &oid).unwrap().is_none());
}

#[test]
fn noise_does_not_end_the_query() {
    let mut session = session(false);
    let mut stub = Stub::new(vec![
        Reply::Noise,
        Reply::Op(3),
        Reply::Op(4),
        Reply::Op(5),
        Reply::Message(octet_response(b"late")),
    ]);
    let (result, unsent) = query(&mut session, &mut stub, Pdu::get());
    assert!(unsent.is_none());
    assert_eq!(
        result.unwrap().first_variable().unwrap().get_value(),
        Ok(Value::OctetStr(b"late".to_vec()))
    );
    assert_eq!(stub.waits, 5);
    assert!(stub.hook_errors.is_empty());
}

#[test]
fn unknown_hook_code_is_reported_and_passed_over() {
    let mut session = session(false);
    let mut stub = Stub::new(vec![
        Reply::Op(99),
        Reply::Op(-3),
        Reply::Message(octet_response(b"ok")),
    ]);
    let (result, _) = query(&mut session, &mut stub, Pdu::get());
    assert!(result.is_ok());
    assert_eq!(stub.hook_errors, vec![99, -3]);
}

#[test]
fn report_outside_of_discovery_is_passed_through() {
    let mut session = session(false);
    let mut stub = Stub::new(vec![Reply::Message(message(168))]);
    let (result, _) = query(&mut session, &mut stub, Pdu::get());
    assert_eq!(result.unwrap().command().unwrap(), Msg::Report);
}

#[test]
fn sent_message_is_not_handed_back() {
    let mut session = session(false);
    let pdu = Pdu::get_request(&Oid::from_slice(&[1, 3, 6]));
    assert!(matches!(session.begin(pdu), Action::AwaitWritable));
    assert!(session.outgoing().is_some());
    assert!(matches!(session.handle(Event::Writable), Action::Send));
    assert_eq!(
        session.outgoing().unwrap().first_variable().unwrap().get_name(),
        Oid::from_slice(&[1, 3, 6])
    );
    assert!(matches!(session.handle(Event::Sent), Action::Wait));
    assert!(session.outgoing().is_none());
    session.deliver(2, None).unwrap();
    assert!(matches!(
        session.handle(Event::Woke {
            timed_out: true,
            readable: false
        }),
        Action::DriveTimeout
    ));
    match session.handle(Event::EngineReturned) {
        Action::Finish { outcome, unsent } => {
            assert!(unsent.is_none());
            assert!(matches!(outcome, Outcome::TimedOut));
        }
        other => panic!("{:?}", other),
    }
    assert!(session.cancel().is_none());
}

#[test]
fn refused_message_comes_back_once() {
    let mut session = session(false);
    let mut stub = Stub::new(vec![]);
    stub.send_works = false;
    let oid = Oid::from_slice(&[1, 3, 6, 1]);
    let (result, unsent) = query(&mut session, &mut stub, Pdu::get_request(&oid));
    match result {
        Err(Error::General(text)) => assert_eq!(text, "no route"),
        other => panic!("{:?}", other.is_ok()),
    }
    let unsent = unsent.unwrap();
    assert_eq!(unsent.first_variable().unwrap().get_name(), oid);
    assert!(session.outgoing().is_none());
    assert!(session.cancel().is_none());
    assert!(stub.sent.is_empty());
    assert_eq!(session.phase(), Phase::Idle);
}

#[test]
fn discovery_runs_once_and_clears_the_flag() {
    let mut session = session(true);
    let mut stub = Stub::new(vec![
        Reply::Message(message(162)),
        Reply::Message(octet_response(b"first")),
    ]);
    assert!(session.session().async_probe());
    let (result, _) = query(&mut session, &mut stub, Pdu::get());
    assert!(result.is_ok());
    assert_eq!(stub.probes, 1);
    assert_eq!(stub.processed.len(), 1);
    assert_eq!(stub.processed[0].command().unwrap(), Msg::Response);
    assert!(!session.session().async_probe());
    assert_eq!(stub.sent.len(), 1);

    for round in 0..3 {
        stub.replies
            .push_back(Reply::Message(octet_response(b"again")));
        let (result, _) = query(&mut session, &mut stub, Pdu::get());
        assert!(result.is_ok(), "round {}", round);
    }
    assert_eq!(stub.probes, 1);
    assert_eq!(stub.probe_checks, 1);
    assert_eq!(stub.sent.len(), 4);
    assert!(!session.session().async_probe());
}

#[test]
fn discovery_is_skipped_where_the_message_needs_none() {
    let mut session = session(true);
    let mut stub = Stub::new(vec![Reply::Message(octet_response(b"plain"))]);
    stub.needs_probe = false;
    let (result, _) = query(&mut session, &mut stub, Pdu::get());
    assert!(result.is_ok());
    assert_eq!(stub.probe_checks, 1);
    assert_eq!(stub.probes, 0);
    assert!(session.session().async_probe());
}

fn assert_probe_failed(result: Result<Pdu, Error>) {
    match result {
        Err(err) => {
            assert!(matches!(err, Error::General(_)));
            assert_eq!(text_of(&err), "engine-id probe failed");
        }
        Ok(_) => panic!("the probe should have failed"),
    }
}

#[test]
fn report_in_discovery_fails_the_probe() {
    let mut session = session(true);
    let mut stub = Stub::new(vec![Reply::Message(message(168))]);
    let oid = Oid::from_slice(&[1, 3]);
    let (result, unsent) = query(&mut session, &mut stub, Pdu::get_request(&oid));
    assert_probe_failed(result);
    assert_eq!(unsent.unwrap().first_variable().unwrap().get_name(), oid);
    assert!(!session.session().async_probe());
    assert!(stub.processed.is_empty());
    assert!(stub.sent.is_empty());

    stub.replies
        .push_back(Reply::Message(octet_response(b"retry")));
    let (result, _) = query(&mut session, &mut stub, Pdu::get_request(&oid));
    assert!(result.is_ok());
    assert_eq!(stub.probes, 1);
}

#[test]
fn timeout_in_discovery_fails_the_probe() {
    let mut session = session(true);
    let mut stub = Stub::new(vec![Reply::GiveUp]);
    let (result, unsent) = query(&mut session, &mut stub, Pdu::get());
    assert_probe_failed(result);
    assert!(unsent.is_some());
    assert!(!session.session().async_probe());
    assert_eq!(stub.probes, 1);
}

#[test]
fn probe_that_does_not_go_out_fails_the_probe() {
    let mut session = session(true);
    let mut stub = Stub::new(vec![]);
    stub.probe_goes_out = false;
    let (result, unsent) = query(&mut session, &mut stub, Pdu::get());
    assert_probe_failed(result);
    assert!(unsent.is_some());
    assert!(!session.session().async_probe());
    assert_eq!(stub.waits, 0);
}

#[test]
fn reply_without_security_parameters_fails_the_probe() {
    let mut session = session(true);
    let mut stub = Stub::new(vec![Reply::Message(message(162))]);
    stub.probe_is_good = false;
    let (result, unsent) = query(&mut session, &mut stub, Pdu::get());
    assert_probe_failed(result);
    assert!(unsent.is_some());
    assert!(!session.session().async_probe());
    assert_eq!(stub.processed.len(), 1);

    stub.replies.push_back(Reply::Message(octet_response(b"x")));
    let (result, _) = query(&mut session, &mut stub, Pdu::get());
    assert!(result.is_ok());
    assert_eq!(stub.probes, 1);
}

#[test]
fn timeout_is_served_before_the_socket() {
    let mut session = session(false);
    session.begin(Pdu::get());
    session.handle(Event::Writable);
    assert!(matches!(session.handle(Event::Sent), Action::Wait));
    assert_eq!(session.phase(), Phase::AwaitReply);
    assert!(matches!(
        session.handle(Event::Woke {
            timed_out: true,
            readable: true
        }),
        Action::DriveTimeout
    ));
    assert_eq!(session.phase(), Phase::EnginePass);
    assert!(matches!(
        session.handle(Event::EngineReturned),
        Action::Multiplex
    ));
    session
        .deliver(1, Some(octet_response(b"both").as_raw()))
        .unwrap();
    match session.handle(Event::EngineReturned) {
        Action::Finish {
            outcome: Outcome::Response(pdu),
            unsent: None,
        } => assert_eq!(
            pdu.first_variable().unwrap().get_value(),
            Ok(Value::OctetStr(b"both".to_vec()))
        ),
        other => panic!("{:?}", other),
    }
}

#[test]
fn timeout_that_completes_leaves_the_socket_alone() {
    let mut session = session(false);
    session.begin(Pdu::get());
    session.handle(Event::Writable);
    session.handle(Event::Sent);
    session.handle(Event::Woke {
        timed_out: true,
        readable: true,
    });
    session.deliver(2, None).unwrap();
    assert!(matches!(
        session.handle(Event::EngineReturned),
        Action::Finish {
            outcome: Outcome::TimedOut,
            unsent: None
        }
    ));
}

#[test]
fn wake_for_nothing_waits_again() {
    let mut session = session(false);
    session.begin(Pdu::get());
    session.handle(Event::Writable);
    session.handle(Event::Sent);
    assert!(matches!(
        session.handle(Event::Woke {
            timed_out: false,
            readable: false
        }),
        Action::Wait
    ));
    assert_eq!(session.phase(), Phase::AwaitReply);
    assert!(matches!(
        session.handle(Event::Woke {
            timed_out: false,
            readable: true
        }),
        Action::Multiplex
    ));
    assert!(matches!(
        session.handle(Event::EngineReturned),
        Action::Wait
    ));
}

#[test]
fn second_hook_call_does_not_overwrite() {
    let mut session = session(false);
    session.begin(Pdu::get());
    session.handle(Event::Writable);
    session.handle(Event::Sent);
    session.handle(Event::Woke {
        timed_out: false,
        readable: true,
    });
    session
        .deliver(1, Some(octet_response(b"first").as_raw()))
        .unwrap();
    session
        .deliver(1, Some(octet_response(b"second").as_raw()))
        .unwrap();
    session.deliver(2, None).unwrap();
    match session.handle(Event::EngineReturned) {
        Action::Finish {
            outcome: Outcome::Response(pdu),
            ..
        } => assert_eq!(
            pdu.first_variable().unwrap().get_value(),
            Ok(Value::OctetStr(b"first".to_vec()))
        ),
        other => panic!("{:?}", other),
    }
    session
        .deliver(1, Some(octet_response(b"stale").as_raw()))
        .unwrap();
    session.deliver(2, None).unwrap();
    assert!(matches!(
        session.handle(Event::EngineReturned),
        Action::Unexpected
    ));
    assert_eq!(session.phase(), Phase::Complete);

    let mut stub = Stub::new(vec![Reply::Message(octet_response(b"fresh"))]);
    let (result, _) = query(&mut session, &mut stub, Pdu::get());
    assert_eq!(
        result.unwrap().first_variable().unwrap().get_value(),
        Ok(Value::OctetStr(b"fresh".to_vec()))
    );
}

#[test]
fn hook_before_registration_writes_nothing() {
    let mut session = session(false);
    session
        .deliver(1, Some(octet_response(b"early").as_raw()))
        .unwrap();
    session.begin(Pdu::get());
    session
        .deliver(1, Some(octet_response(b"early").as_raw()))
        .unwrap();
    session.handle(Event::Writable);
    session.deliver(2, None).unwrap();
    session.handle(Event::Sent);
    session.handle(Event::Woke {
        timed_out: false,
        readable: true,
    });
    assert!(matches!(
        session.handle(Event::EngineReturned),
        Action::Wait
    ));
}

#[test]
fn events_out_of_turn_change_nothing() {
    let mut session = session(true);
    assert!(matches!(session.handle(Event::Writable), Action::Unexpected));
    assert!(matches!(session.handle(Event::Sent), Action::Unexpected));
    assert_eq!(session.phase(), Phase::Idle);
    assert!(matches!(session.begin(Pdu::get()), Action::CheckProbe));
    assert_eq!(session.phase(), Phase::CheckingProbe);
    for event in [
        Event::Writable,
        Event::ProbeSent(true),
        Event::Sent,
        Event::SendFailed(Error::KeyError),
        Event::Woke {
            timed_out: true,
            readable: true,
        },
        Event::EngineReturned,
        Event::ProbeProcessed(true),
    ] {
        assert!(matches!(session.handle(event), Action::Unexpected));
        assert_eq!(session.phase(), Phase::CheckingProbe);
        assert!(session.outgoing().is_some());
        assert!(session.session().async_probe());
    }
    assert!(matches!(
        session.handle(Event::ProbeNeeded(true)),
        Action::AwaitWritable
    ));
    assert!(session.is_probing());
    assert!(matches!(session.handle(Event::Sent), Action::Unexpected));
    assert!(matches!(session.handle(Event::Writable), Action::SendProbe));
    assert!(matches!(session.handle(Event::Sent), Action::Unexpected));
    assert!(matches!(
        session.handle(Event::SendFailed(Error::KeyError)),
        Action::Unexpected
    ));
    assert_eq!(session.phase(), Phase::Sending);
}

#[test]
fn cancel_returns_the_unsent_message_and_frees_the_session() {
    let mut session = session(false);
    let oid = Oid::from_slice(&[1, 3, 6]);
    session.begin(Pdu::get_request(&oid));
    let unsent = session.cancel().unwrap();
    assert_eq!(unsent.first_variable().unwrap().get_name(), oid);
    assert_eq!(session.phase(), Phase::Idle);
    assert!(session.cancel().is_none());

    session.begin(Pdu::get());
    session.handle(Event::Writable);
    session.handle(Event::Sent);
    session.handle(Event::Woke {
        timed_out: false,
        readable: true,
    });
    assert!(session.cancel().is_none());
    session
        .deliver(1, Some(octet_response(b"stale").as_raw()))
        .unwrap();
    assert!(matches!(
        session.handle(Event::EngineReturned),
        Action::Unexpected
    ));

    let mut stub = Stub::new(vec![Reply::Message(octet_response(b"next"))]);
    let (result, _) = query(&mut session, &mut stub, Pdu::get());
    assert_eq!(
        result.unwrap().first_variable().unwrap().get_value(),
        Ok(Value::OctetStr(b"next".to_vec()))
    );
}

#[test]
fn cancel_in_discovery_counts_as_failure_once_the_probe_is_out() {
    let mut early = session(true);
    early.begin(Pdu::get());
    early.handle(Event::ProbeNeeded(true));
    assert!(early.cancel().is_some());
    assert!(early.session().async_probe());

    let mut late = session(true);
    late.begin(Pdu::get());
    late.handle(Event::ProbeNeeded(true));
    assert!(matches!(late.handle(Event::Writable), Action::SendProbe));
    assert!(late.cancel().is_some());
    assert!(!late.session().async_probe());
    let mut stub = Stub::new(vec![Reply::Message(octet_response(b"x"))]);
    let (result, _) = query(&mut late, &mut stub, Pdu::get());
    assert!(result.is_ok());
    assert_eq!(stub.probes, 0);
}

#[test]
fn bulk_query_sends_what_was_built() {
    let mut session = session(false);
    let mut stub = Stub::new(vec![Reply::Message(message(162))]);
    let gets = [Oid::from_slice(&[1, 1])];
    let walks = [Oid::from_slice(&[2, 1]), Oid::from_slice(&[2, 2])];
    let (result, _) = query(
        &mut session,
        &mut stub,
        Pdu::get_bulk_request(&gets, &walks, 10),
    );
    assert!(result.is_ok());
    let sent = &stub.sent[0];
    assert_eq!(sent.command().unwrap(), Msg::GetBulk);
    assert_eq!(sent.errstat(), 1);
    assert_eq!(sent.errindex(), 10);
    let mut walk = sent.variables();
    assert_eq!(walk.next().unwrap().get_name(), Oid::from_slice(&[1, 1]));
    assert_eq!(walk.next().unwrap().get_name(), Oid::from_slice(&[2, 1]));
    assert_eq!(walk.next().unwrap().get_name(), Oid::from_slice(&[2, 2]));
    assert!(walk.next().is_none());
}

#[test]
fn outcomes_as_results() {
    assert!(Outcome::Response(message(162)).into_result().is_ok());
    match Outcome::TimedOut.into_result() {
        Err(Error::General(text)) => assert_eq!(text, "timeout"),
        _ => panic!(),
    }
    match Outcome::ProbeFailed.into_result() {
        Err(Error::General(text)) => assert_eq!(text, "engine-id probe failed"),
        _ => panic!(),
    }
    assert!(matches!(
        Outcome::SendFailed(Error::KeyError).into_result(),
        Err(Error::KeyError)
    ));
}

#[test]
fn handle_wraps_and_unwraps_a_session() {
    let handle = SingleSession::from_raw(session(true));
    assert_eq!(handle.phase(), Phase::Idle);
    assert_eq!(handle.transport().socket_fd(), 7);
    assert!(handle.has_error() == false);
    assert!(!handle.is_authoritative());
    assert_eq!(handle.peername(), Some(String::from("192.0.2.1")));
    assert_eq!(handle.localname(), None);
    let mut raw = handle.into_raw();
    raw.set_async_probe(false);
    assert!(!raw.session().async_probe());
    raw.set_async_probe(true);
    assert!(raw.session().async_probe());
}

#[test]
fn stages_of_a_query_with_discovery() {
    let mut session = session(true);
    assert_eq!(session.stage(), Stage::Idle);
    session.begin(Pdu::get());
    assert_eq!(session.stage(), Stage::Idle);
    session.handle(Event::ProbeNeeded(true));
    assert_eq!(session.stage(), Stage::ProbingHandshake);
    session.handle(Event::Writable);
    session.handle(Event::ProbeSent(true));
    assert_eq!(session.stage(), Stage::ProbingHandshake);
    session.handle(Event::Woke {
        timed_out: false,
        readable: true,
    });
    session.deliver(1, Some(message(162).as_raw())).unwrap();
    assert!(matches!(
        session.handle(Event::EngineReturned),
        Action::ProcessProbe(_)
    ));
    assert_eq!(session.stage(), Stage::ProbingHandshake);
    assert_eq!(session.phase(), Phase::Processing);
    session.handle(Event::ProbeProcessed(true));
    assert_eq!(session.stage(), Stage::AwaitWritable);
    assert!(matches!(session.handle(Event::Writable), Action::Send));
    assert_eq!(session.stage(), Stage::AwaitWritable);
    session.handle(Event::Sent);
    assert_eq!(session.stage(), Stage::AwaitReadableOrTimeout);
    session.handle(Event::Woke {
        timed_out: true,
        readable: false,
    });
    assert_eq!(session.stage(), Stage::AwaitReadableOrTimeout);
    assert!(matches!(session.handle(Event::EngineReturned), Action::Wait));
    session.handle(Event::Woke {
        timed_out: true,
        readable: false,
    });
    session.deliver(2, None).unwrap();
    session.handle(Event::EngineReturned);
    assert_eq!(session.stage(), Stage::Complete);
}

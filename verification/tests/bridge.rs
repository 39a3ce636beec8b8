use netsnmp::bridge::CallbackBridge;
use netsnmp::bridge::Completion;
use netsnmp::error::Error;
use netsnmp::msg::Msg;
use netsnmp::oid::Oid;
use netsnmp::pdu::Pdu;

fn marked(flag: u64) -> Pdu {
    Pdu::from_parts(
        162,
        1,
        0,
        0,
        flag,
        vec![],
        Oid::empty(),
        0,
        0,
        [0; 4],
        netsnmp::varlist::VarList::new(),
        vec![],
    )
}

#[test]
fn new_bridge_is_idle() {
    let mut bridge = CallbackBridge::new();
    assert!(!bridge.is_armed());
    assert!(!bridge.is_filled());
    assert!(bridge.take().is_none());
}

#[test]
fn received_message_is_copied_into_the_slot() {
    let mut bridge = CallbackBridge::new();
    bridge.install();
    assert!(bridge.is_armed());
    let message = marked(5);
    bridge.deliver(1, Some(message.as_raw())).unwrap();
    drop(message);
    assert!(bridge.is_filled());
    match bridge.take() {
        Some(Completion::Received(pdu)) => {
            assert_eq!(pdu.flags(), 5);
            assert_eq!(pdu.command().unwrap(), Msg::Response);
        }
        other => panic!("{:?}", other),
    }
    assert!(!bridge.is_armed());
    assert!(!bridge.is_filled());
    assert!(bridge.take().is_none());
}

#[test]
fn timeout_is_noted() {
    let mut bridge = CallbackBridge::new();
    bridge.install();
    bridge.deliver(2, None).unwrap();
    assert!(matches!(bridge.take(), Some(Completion::TimedOut)));
}

#[test]
fn slot_is_written_once_per_registration() {
    let mut bridge = CallbackBridge::new();
    bridge.install();
    bridge.deliver(1, Some(marked(1).as_raw())).unwrap();
    bridge.deliver(1, Some(marked(2).as_raw())).unwrap();
    bridge.deliver(2, None).unwrap();
    match bridge.take() {
        Some(Completion::Received(pdu)) => assert_eq!(pdu.flags(), 1),
        other => panic!("{:?}", other),
    }

    bridge.install();
    bridge.deliver(2, None).unwrap();
    bridge.deliver(1, Some(marked(3).as_raw())).unwrap();
    assert!(matches!(bridge.take(), Some(Completion::TimedOut)));
}

#[test]
fn late_call_after_the_result_was_taken_writes_nothing() {
    let mut bridge = CallbackBridge::new();
    bridge.install();
    bridge.deliver(1, Some(marked(1).as_raw())).unwrap();
    assert!(bridge.take().is_some());
    bridge.deliver(1, Some(marked(2).as_raw())).unwrap();
    bridge.deliver(2, None).unwrap();
    assert!(!bridge.is_filled());
    assert!(bridge.take().is_none());
}

#[test]
fn unregistered_bridge_is_never_written() {
    let mut bridge = CallbackBridge::new();
    bridge.deliver(1, Some(marked(1).as_raw())).unwrap();
    bridge.deliver(2, None).unwrap();
    assert!(!bridge.is_filled());
    bridge.install();
    bridge.remove();
    bridge.deliver(2, None).unwrap();
    assert!(!bridge.is_filled());
    assert!(!bridge.is_armed());
}

#[test]
fn other_operations_are_passed_over() {
    let mut bridge = CallbackBridge::new();
    bridge.install();
    for op in [3, 4, 5] {
        assert!(bridge.deliver(op, None).is_ok());
        assert!(bridge.deliver(op, Some(marked(9).as_raw())).is_ok());
        assert!(!bridge.is_filled());
        assert!(bridge.is_armed());
    }
    assert!(bridge.take().is_none());
    assert!(bridge.is_armed());
}

#[test]
fn unknown_operation_is_reported_not_written() {
    let mut bridge = CallbackBridge::new();
    bridge.install();
    for op in [0, 6, 7, -1, 1000] {
        match bridge.deliver(op, Some(marked(1).as_raw())) {
            Err(Error::InvalidCallbackOp(code)) => assert_eq!(code, op),
            other => panic!("{:?}", other),
        }
        assert!(!bridge.is_filled());
        assert!(bridge.is_armed());
    }
    bridge.deliver(2, None).unwrap();
    assert!(matches!(bridge.deliver(99, None), Err(Error::InvalidCallbackOp(99))));
    assert!(matches!(bridge.take(), Some(Completion::TimedOut)));
}

#[test]
fn installing_again_drops_what_was_not_taken() {
    let mut bridge = CallbackBridge::new();
    bridge.install();
    bridge.deliver(2, None).unwrap();
    bridge.install();
    assert!(!bridge.is_filled());
    bridge.deliver(1, Some(marked(4).as_raw())).unwrap();
    match bridge.take() {
        Some(Completion::Received(pdu)) => assert_eq!(pdu.flags(), 4),
        other => panic!("{:?}", other),
    }
}

use netsnmp::callback_op::CallbackOp;
use netsnmp::error::Error;
use netsnmp::msg::Msg;
use netsnmp::version::Version;

#[test]
fn message_codes() {
    let all = [
        (160, Msg::Get),
        (161, Msg::GetNext),
        (162, Msg::Response),
        (163, Msg::SetRequest),
        (164, Msg::Trap),
        (165, Msg::GetBulk),
        (166, Msg::Inform),
        (167, Msg::Trap2),
        (168, Msg::Report),
    ];
    for (code, msg) in all {
        assert_eq!(Msg::try_from(code).unwrap(), msg);
        assert_eq!(msg.code(), code);
    }
}

#[test]
fn unknown_message_code_is_returned() {
    assert!(matches!(Msg::try_from(0), Err(Error::InvalidMsg(0))));
    assert!(matches!(Msg::try_from(159), Err(Error::InvalidMsg(159))));
    assert!(matches!(Msg::try_from(169), Err(Error::InvalidMsg(169))));
    assert!(matches!(
        Msg::try_from(u32::MAX),
        Err(Error::InvalidMsg(u32::MAX))
    ));
}

#[test]
fn version_codes() {
    assert_eq!(Version::try_from(0).unwrap(), Version::V1);
    assert_eq!(Version::try_from(1).unwrap(), Version::V2c);
    assert_eq!(Version::try_from(3).unwrap(), Version::V3);
    assert_eq!(Version::V1.code(), 0);
    assert_eq!(Version::V2c.code(), 1);
    assert_eq!(Version::V3.code(), 3);
}

#[test]
fn unsupported_versions_are_named() {
    assert!(matches!(
        Version::try_from(2),
        Err(Error::UnsupportedVersion("v2u"))
    ));
    assert!(matches!(
        Version::try_from(129),
        Err(Error::UnsupportedVersion("v2p"))
    ));
    assert!(matches!(
        Version::try_from(128),
        Err(Error::UnsupportedVersion("v2sec"))
    ));
    assert!(matches!(
        Version::try_from(130),
        Err(Error::UnsupportedVersion("v2*"))
    ));
}

#[test]
fn unknown_version_code_is_returned() {
    assert!(matches!(Version::try_from(4), Err(Error::InvalidVersion(4))));
    assert!(matches!(
        Version::try_from(127),
        Err(Error::InvalidVersion(127))
    ));
    assert!(matches!(
        Version::try_from(u32::MAX),
        Err(Error::InvalidVersion(u32::MAX))
    ));
}

#[test]
fn callback_codes() {
    let all = [
        (1, CallbackOp::ReceivedMessage),
        (2, CallbackOp::TimedOut),
        (3, CallbackOp::SendFailed),
        (4, CallbackOp::Connect),
        (5, CallbackOp::Disconnect),
    ];
    for (code, op) in all {
        assert_eq!(CallbackOp::try_from(code).unwrap(), op);
        assert_eq!(op.code(), code);
    }
}

#[test]
fn unknown_callback_code_is_returned() {
    for code in [0, 6, 7, -1, i32::MIN, i32::MAX] {
        match CallbackOp::try_from(code) {
            Err(Error::InvalidCallbackOp(val)) => assert_eq!(val, code),
            other => panic!("{:?}", other),
        }
    }
}

#[test]
fn codes_convert_through_the_standard_traits() {
    let msg: Msg = 165u32.try_into().unwrap();
    assert_eq!(msg, Msg::GetBulk);
    let bad: Result<Msg, Error> = 1u32.try_into();
    assert!(matches!(bad, Err(Error::InvalidMsg(1))));
    let version: Version = 3u32.try_into().unwrap();
    assert_eq!(version, Version::V3);
    let bad: Result<Version, Error> = 128u32.try_into();
    assert!(matches!(bad, Err(Error::UnsupportedVersion("v2sec"))));
    let op: CallbackOp = 2i32.try_into().unwrap();
    assert_eq!(op, CallbackOp::TimedOut);
    let bad: Result<CallbackOp, Error> = (-2i32).try_into();
    assert!(matches!(bad, Err(Error::InvalidCallbackOp(-2))));
}

use netsnmp::error::Error;
use netsnmp::msg::Msg;
use netsnmp::oid::Oid;
use netsnmp::pdu::Pdu;
use netsnmp::pdu::PduPtr;
use netsnmp::session::sync_outcome;
use netsnmp::session::SyncOutcome;
use netsnmp::types::VarType;
use netsnmp::value::Value;
use netsnmp::variable::VariablePtr;
use netsnmp::varlist::VarList;
use netsnmp::version::Version;

fn names(pdu: &PduPtr) -> Vec<Vec<u64>> {
    let mut walk = pdu.variables();
    let mut out = Vec::new();
    while let Some(var) = walk.next() {
        out.push(var.get_name().as_slice().to_vec());
    }
    out
}

fn response(vars: Vec<VariablePtr>, command: i32, errstat: i64) -> Pdu {
    let mut list = VarList::new();
    for v in vars {
        list.push(v.to_owned());
    }
    Pdu::from_parts(
        command,
        1,
        errstat,
        0,
        0x10,
        b"public".to_vec(),
        Oid::from_slice(&[1, 3, 6, 1, 4, 1, 8072]),
        6,
        17,
        [192, 168, 0, 9],
        list,
        vec![127, 0, 0, 1],
    )
}

#[test]
fn fresh_requests_are_empty() {
    let get = Pdu::get();
    assert_eq!(get.command().unwrap(), Msg::Get);
    assert_eq!(get.errstat(), -1);
    assert_eq!(get.errindex(), -1);
    assert_eq!(get.flags(), 0);
    assert!(names(&get).is_empty());
    assert!(get.first_variable().is_none());
    assert_eq!(get.agent_addr(), [0, 0, 0, 0]);
    assert!(get.enterprise().is_empty());
    assert!(get.transport_data().is_empty());
    assert_eq!(get.community().unwrap(), "");
    assert!(matches!(
        get.version(),
        Err(Error::InvalidVersion(u32::MAX))
    ));
    assert_eq!(Pdu::get_next().command().unwrap(), Msg::GetNext);
}

#[test]
fn added_oids_are_valueless_variables_in_order() {
    let a = Oid::from_slice(&[1, 3, 6, 1, 2, 1, 1, 1, 0]);
    let b = Oid::from_slice(&[1, 3, 6, 1, 2, 1, 1, 5, 0]);
    let pdu = Pdu::get().add_oid(&a).add_oid(&b);
    assert_eq!(
        names(&pdu),
        vec![a.as_slice().to_vec(), b.as_slice().to_vec()]
    );
    let mut walk = pdu.variables();
    while let Some(var) = walk.next() {
        assert_eq!(var.get_type(), Ok(VarType::Null));
        assert_eq!(var.get_value(), Ok(Value::Null));
        assert!(var.payload().is_empty());
    }
    assert_eq!(pdu.command().unwrap(), Msg::Get);
}

#[test]
fn get_request_for_one_object() {
    let oid = Oid::from_str("1.3.6.1.2.1.1.1.0").unwrap();
    let pdu = Pdu::get_request(&oid);
    assert_eq!(pdu.command().unwrap(), Msg::Get);
    assert_eq!(names(&pdu), vec![oid.as_slice().to_vec()]);
    let next = Pdu::get_next_request(&oid);
    assert_eq!(next.command().unwrap(), Msg::GetNext);
    assert_eq!(names(&next), vec![oid.as_slice().to_vec()]);
}

#[test]
fn bulk_request_sets_counts_and_orders_lists() {
    let gets = [Oid::from_slice(&[1, 1]), Oid::from_slice(&[1, 2])];
    let walks = [
        Oid::from_slice(&[2, 1]),
        Oid::from_slice(&[2, 2]),
        Oid::from_slice(&[2, 3]),
    ];
    let pdu = Pdu::get_bulk_request(&gets, &walks, 25);
    assert_eq!(pdu.command().unwrap(), Msg::GetBulk);
    assert_eq!(pdu.errstat(), 2);
    assert_eq!(pdu.errindex(), 25);
    assert_eq!(
        names(&pdu),
        vec![vec![1, 1], vec![1, 2], vec![2, 1], vec![2, 2], vec![2, 3]]
    );
    let none = Pdu::get_bulk_request(&[], &[], 0);
    assert_eq!(none.errstat(), 0);
    assert_eq!(none.errindex(), 0);
    assert!(names(&none).is_empty());
}

#[test]
fn get_many_asks_for_each_once() {
    let oids = [
        Oid::from_slice(&[1, 1]),
        Oid::from_slice(&[1, 2]),
        Oid::from_slice(&[1, 3]),
    ];
    let pdu = Pdu::get_many_request(&oids);
    assert_eq!(pdu.command().unwrap(), Msg::GetBulk);
    assert_eq!(pdu.errstat(), 3);
    assert_eq!(pdu.errindex(), 1);
    assert_eq!(names(&pdu), vec![vec![1, 1], vec![1, 2], vec![1, 3]]);
}

#[test]
fn empty_bulk_request() {
    let pdu = Pdu::get_bulk(4, 9);
    assert_eq!(pdu.command().unwrap(), Msg::GetBulk);
    assert_eq!(pdu.errstat(), 4);
    assert_eq!(pdu.errindex(), 9);
    assert!(names(&pdu).is_empty());
}

#[test]
fn accessors_of_a_filled_message() {
    let pdu = response(
        vec![VariablePtr::new(
            Oid::from_slice(&[1, 3]),
            0x04,
            b"x".to_vec(),
        )],
        162,
        0,
    );
    assert_eq!(pdu.command().unwrap(), Msg::Response);
    assert_eq!(pdu.version().unwrap(), Version::V2c);
    assert_eq!(pdu.flags(), 0x10);
    assert_eq!(pdu.community().unwrap(), "public");
    assert_eq!(pdu.enterprise(), Oid::from_slice(&[1, 3, 6, 1, 4, 1, 8072]));
    assert_eq!(pdu.trap_type(), 6);
    assert_eq!(pdu.specific_type(), 17);
    assert_eq!(pdu.agent_addr(), [192, 168, 0, 9]);
    assert_eq!(pdu.transport_data(), &[127, 0, 0, 1]);
    let first = pdu.first_variable().unwrap();
    assert_eq!(first.get_value(), Ok(Value::OctetStr(b"x".to_vec())));
}

#[test]
fn negative_trap_types_wrap() {
    let pdu = Pdu::from_parts(
        164,
        0,
        0,
        0,
        0,
        vec![],
        Oid::empty(),
        -1,
        -2,
        [0; 4],
        VarList::new(),
        vec![],
    );
    assert_eq!(pdu.trap_type(), u64::MAX);
    assert_eq!(pdu.specific_type(), u64::MAX - 1);
    assert_eq!(pdu.version().unwrap(), Version::V1);
}

#[test]
fn unknown_command_is_an_error() {
    let pdu = response(vec![], 7, 0);
    assert!(matches!(pdu.command(), Err(Error::InvalidMsg(7))));
    let negative = response(vec![], -1, 0);
    assert!(matches!(
        negative.command(),
        Err(Error::InvalidMsg(u32::MAX))
    ));
}

#[test]
fn community_has_to_be_utf8() {
    let pdu = Pdu::from_parts(
        160,
        1,
        0,
        0,
        0,
        vec![0xff, 0xfe],
        Oid::empty(),
        0,
        0,
        [0; 4],
        VarList::new(),
        vec![],
    );
    match pdu.community() {
        Err(Error::General(text)) => assert_eq!(text, "Community string is not valid utf8!"),
        other => panic!("{:?}", other),
    }
    let accented = Pdu::from_parts(
        160,
        1,
        0,
        0,
        0,
        "privé".as_bytes().to_vec(),
        Oid::empty(),
        0,
        0,
        [0; 4],
        VarList::new(),
        vec![],
    );
    assert_eq!(accented.community().unwrap(), "privé");
}

#[test]
fn set_command_and_clear_error() {
    let mut raw = response(vec![], 162, 5).into_raw();
    assert_eq!(raw.errstat(), 5);
    raw.clear_error();
    assert_eq!(raw.errstat(), 0);
    assert_eq!(raw.errindex(), 0);
    raw.set_command(Msg::Trap2);
    assert_eq!(raw.command().unwrap(), Msg::Trap2);
    assert_eq!(raw.community().unwrap(), "public");
}

#[test]
fn copy_is_independent_and_complete() {
    let source = response(
        vec![
            VariablePtr::new(Oid::from_slice(&[1, 3, 1]), 0x02, vec![5, 0, 0, 0, 0, 0, 0, 0]),
            VariablePtr::new(Oid::from_slice(&[1, 3, 2]), 0x04, b"abc".to_vec()),
        ],
        162,
        0,
    );
    let copy = source.to_owned();
    drop(source);
    assert_eq!(copy.command().unwrap(), Msg::Response);
    assert_eq!(copy.community().unwrap(), "public");
    assert_eq!(names(&copy), vec![vec![1, 3, 1], vec![1, 3, 2]]);
    let mut walk = copy.variables();
    assert_eq!(walk.next().unwrap().get_value(), Ok(Value::Integer(5)));
    assert_eq!(
        walk.next().unwrap().get_value(),
        Ok(Value::OctetStr(b"abc".to_vec()))
    );
    assert!(walk.next().is_none());
    assert!(walk.next().is_none());
}

#[test]
fn walks_restart_at_the_head() {
    let pdu = Pdu::get()
        .add_oid(&Oid::from_slice(&[1]))
        .add_oid(&Oid::from_slice(&[2]));
    let mut first = pdu.variables();
    assert_eq!(first.next().unwrap().get_name(), Oid::from_slice(&[1]));
    let mut second = pdu.variables();
    assert_eq!(second.next().unwrap().get_name(), Oid::from_slice(&[1]));
    assert_eq!(first.next().unwrap().get_name(), Oid::from_slice(&[2]));
    assert!(first.next().is_none());
    assert_eq!(second.next().unwrap().get_name(), Oid::from_slice(&[2]));
}

#[test]
fn chains_can_be_empty() {
    let list = VarList::new();
    assert_eq!(list.len(), 0);
    assert!(list.get(0).is_none());
    assert!(list.into_iter().next().is_none());
    let mut one = VarList::new();
    one.push(VariablePtr::new(Oid::from_slice(&[9]), 0x05, vec![]).to_owned());
    assert_eq!(one.len(), 1);
    assert_eq!(one.get(0).unwrap().get_name(), Oid::from_slice(&[9]));
    assert!(one.get(1).is_none());
    let copy = one.to_owned();
    assert_eq!(copy.as_raw().len(), 1);
    let raw = copy.into_raw();
    assert_eq!(raw.get(0).unwrap().tag(), 0x05);
}

#[test]
fn sync_outcome_of_an_exchange() {
    match sync_outcome(0, Some(response(vec![], 162, 0))) {
        SyncOutcome::Response(pdu) => assert_eq!(pdu.command().unwrap(), Msg::Response),
        other => panic!("{:?}", other),
    }
    assert!(matches!(
        sync_outcome(0, Some(response(vec![], 162, 2))),
        SyncOutcome::PacketError(2)
    ));
    assert!(matches!(sync_outcome(1, None), SyncOutcome::SessionError));
    assert!(matches!(sync_outcome(2, None), SyncOutcome::SessionError));
    assert!(matches!(
        sync_outcome(1, Some(response(vec![], 162, 0))),
        SyncOutcome::SessionError
    ));
}

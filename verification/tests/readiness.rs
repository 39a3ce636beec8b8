use netsnmp::readiness::checked_retry_timeout;
use netsnmp::readiness::descriptor_set;
use netsnmp::readiness::retry_timeout;
use netsnmp::readiness::watch_descriptor;
use netsnmp::readiness::Timeout;
use netsnmp::session::SessionPtr;
use netsnmp::single_session::SingleSessionPtr;
use netsnmp::transport::Transport;
use netsnmp::transport::TransportPtr;

#[test]
fn timeout_from_seconds_and_microseconds() {
    assert_eq!(retry_timeout(0, 0), Timeout { secs: 0, nanos: 0 });
    assert_eq!(
        retry_timeout(1, 500_000),
        Timeout {
            secs: 1,
            nanos: 500_000_000
        }
    );
    assert_eq!(
        retry_timeout(0, 999_999),
        Timeout {
            secs: 0,
            nanos: 999_999_000
        }
    );
    assert_eq!(
        retry_timeout(2, 3_250_001),
        Timeout {
            secs: 5,
            nanos: 250_001_000
        }
    );
    assert_eq!(
        retry_timeout(i64::MAX, 0),
        Timeout {
            secs: i64::MAX as u64,
            nanos: 0
        }
    );
}

#[test]
fn negative_parts_are_read_as_unsigned() {
    assert_eq!(
        retry_timeout(-1, 0),
        Timeout {
            secs: u64::MAX,
            nanos: 0
        }
    );
    let micros = (-1i64) as u64;
    assert_eq!(
        retry_timeout(0, -1),
        Timeout {
            secs: micros / 1_000_000,
            nanos: ((micros % 1_000_000) * 1000) as u32
        }
    );
    assert_eq!(
        retry_timeout(i64::MIN, 0),
        Timeout {
            secs: 1 << 63,
            nanos: 0
        }
    );
}

#[test]
fn timeout_that_does_not_fit() {
    assert_eq!(checked_retry_timeout(-1, 1_000_000), None);
    assert_eq!(checked_retry_timeout(-1, -1), None);
    assert_eq!(
        checked_retry_timeout(-1, 999_999),
        Some(Timeout {
            secs: u64::MAX,
            nanos: 999_999_000
        })
    );
    assert_eq!(
        checked_retry_timeout(3, 7),
        Some(Timeout {
            secs: 3,
            nanos: 7000
        })
    );
}

fn members(set: &[u64]) -> Vec<usize> {
    let mut out = Vec::new();
    for (i, word) in set.iter().enumerate() {
        for bit in 0..64 {
            if (word >> bit) & 1 == 1 {
                out.push(i * 64 + bit);
            }
        }
    }
    out
}

#[test]
fn descriptor_set_holds_one_descriptor() {
    for fd in [1, 2, 7, 63, 64, 65, 127, 128, 1000, 1023, 1024, 65_535] {
        let set = descriptor_set(fd);
        assert_eq!(set.len(), fd as usize / 64 + 1);
        assert_eq!(members(&set), vec![fd as usize]);
    }
    assert_eq!(descriptor_set(5), vec![0b10_0000]);
    assert_eq!(descriptor_set(64), vec![0, 1]);
    assert_eq!(descriptor_set(130), vec![0, 0, 4]);
}

#[test]
fn session_readiness() {
    let session = SingleSessionPtr::new(SessionPtr::new(), TransportPtr { sock: 70, flags: 0 });
    assert_eq!(
        session.select_info(1, 250_000),
        (
            70,
            Timeout {
                secs: 1,
                nanos: 250_000_000
            }
        )
    );
    assert_eq!(session.read_set(), vec![0, 64]);
}

#[test]
fn transport_accessors() {
    let transport = Transport::from_raw(TransportPtr {
        sock: 12,
        flags: 0x21,
    });
    assert_eq!(transport.socket_fd(), 12);
    assert_eq!(*transport.socket_fd_ref(), 12);
    assert_eq!(transport.as_transport_ptr().flags, 0x21);
    assert_eq!(transport.format_flags(true), 0xa1);
    assert_eq!(transport.format_flags(false), 0x21);
    let raw = transport.into_raw();
    assert_eq!(raw, TransportPtr { sock: 12, flags: 0x21 });
    let named = TransportPtr {
        sock: 3,
        flags: 0xff,
    };
    assert_eq!(named.format_flags(false), 0x7f);
    assert_eq!(named.format_flags(true), 0xff);
    assert_eq!(named.flags, 0xff);
}

#[test]
fn watching_one_more_descriptor() {
    let mut set = vec![0u64; 16];
    assert_eq!(watch_descriptor(&mut set, 0, 5), 6);
    assert_eq!(members(&set), vec![5]);
    assert_eq!(watch_descriptor(&mut set, 6, 3), 6);
    assert_eq!(members(&set), vec![3, 5]);
    assert_eq!(watch_descriptor(&mut set, 6, 5), 6);
    assert_eq!(members(&set), vec![3, 5]);
    assert_eq!(watch_descriptor(&mut set, 6, 6), 7);
    assert_eq!(watch_descriptor(&mut set, 7, 63), 64);
    assert_eq!(watch_descriptor(&mut set, 64, 64), 65);
    assert_eq!(watch_descriptor(&mut set, 65, 1023), 1024);
    assert_eq!(members(&set), vec![3, 5, 6, 63, 64, 1023]);
    assert_eq!(watch_descriptor(&mut set, 2000, 0), 2000);
    assert_eq!(watch_descriptor(&mut set, -5, 0), 1);

    let mut filled = vec![u64::MAX, 0b1001];
    assert_eq!(watch_descriptor(&mut filled, 68, 65), 68);
    assert_eq!(filled, vec![u64::MAX, 0b1011]);
}

use pnet::datalink::NetworkInterface;
use rawsock::errors::SockError;
use rawsock::link::Link;
use rawsock::registry::{RawSock, Registry};
use rawsock::resolve::resolve;

#[test]
fn it_works() {}

fn iface(name: &str, index: u32) -> NetworkInterface {
    NetworkInterface {
        name: name.to_string(),
        description: String::new(),
        index,
        mac: None,
        ips: vec![],
        flags: 0,
    }
}

#[test]
fn resolve_picks_first_exact_match() {
    let ifaces = vec![
        ("eth0".to_string(), iface("eth0", 1)),
        ("wlan0".to_string(), iface("wlan0", 2)),
        ("wlan0".to_string(), iface("wlan0", 3)),
    ];
    assert_eq!(resolve(&ifaces, &"wlan0".to_string()), Ok(1));
    assert_eq!(resolve(&ifaces, &"eth0".to_string()), Ok(0));
    assert!(matches!(
        resolve(&ifaces, &"eth1".to_string()),
        Err(SockError::InterfaceNotFound)
    ));
}

#[test]
fn open_on_empty_enumeration_yields_not_found() {
    let mut reg = Registry::new();
    let ifaces: Vec<(String, NetworkInterface)> = vec![];
    let r = reg.open_on(&ifaces, &"eth0".to_string());
    assert!(matches!(r, Err(SockError::InterfaceNotFound)));
    // no handle was produced: the next handle value is still the first slot
    assert_eq!(reg.open_loopback(), 0);
}

#[test]
fn open_unknown_interface_yields_not_found() {
    let mut reg = Registry::new();
    let r = reg.open(&"rawsock_no_such_interface_0".to_string());
    assert!(matches!(r, Err(SockError::InterfaceNotFound)));
}

#[test]
fn open_and_close_a_real_interface() {
    let mut reg = Registry::new();
    match reg.open(&"lo".to_string()) {
        Ok(h) => {
            assert!(reg.close(h).is_ok());
            let mut buf = vec![0u8; 1];
            assert!(matches!(reg.read(h, &mut buf, 0), Err(SockError::InvalidHandle)));
        }
        Err(e) => {
            // without a loopback interface, or without the privilege to open
            // a raw channel, the open is refused but never aborts the process
            assert!(matches!(
                e,
                SockError::InterfaceNotFound
                    | SockError::ChannelOpenError(_)
                    | SockError::UnsupportedChannelType
            ));
        }
    }
}

#[test]
fn channel_refusal_reports_open_error() {
    let mut reg = Registry::new();
    let name = "rawsock_bogus_device".to_string();
    // resolution succeeds, but no device with this name or index exists, so
    // the platform refuses the channel
    let ifaces = vec![(name.clone(), iface("rawsock_bogus_device", 4_294_967_294))];
    match reg.open_on(&ifaces, &name) {
        Err(SockError::ChannelOpenError(_)) => {}
        Err(SockError::UnsupportedChannelType) => {}
        other => panic!("expected a channel refusal, got {:?}", other),
    }
    // no handle was produced
    assert_eq!(reg.open_loopback(), 0);
}

#[test]
fn loopback_round_trip_exact_bytes() {
    let mut reg = Registry::new();
    let h = reg.open_loopback();
    let frame: Vec<u8> = vec![0xde, 0xad, 0xbe, 0xef, 0x05];
    assert!(reg.write(h, &frame, 0, 5).is_ok());
    let mut buf = vec![0u8; 8];
    let n = reg.read(h, &mut buf, 0).unwrap();
    assert_eq!(n, 5);
    assert_eq!(&buf[..5], &frame[..]);
    assert_eq!(&buf[5..], &[0u8, 0, 0]);
}

#[test]
fn write_respects_offset_and_length() {
    let mut reg = Registry::new();
    let h = reg.open_loopback();
    let src = vec![1u8, 2, 3, 4, 5, 6];
    assert!(reg.write(h, &src, 2, 3).is_ok());
    let mut buf = vec![0u8; 4];
    let n = reg.read(h, &mut buf, 1).unwrap();
    assert_eq!(n, 3);
    assert_eq!(buf, vec![0, 3, 4, 5]);
}

#[test]
fn empty_medium_times_out_twice_and_handle_survives() {
    let mut reg = Registry::new();
    let h = reg.open_loopback();
    let mut buf = vec![0u8; 4];
    assert!(matches!(reg.read(h, &mut buf, 0), Err(SockError::Timeout)));
    assert!(matches!(reg.read(h, &mut buf, 0), Err(SockError::Timeout)));
    assert_eq!(buf, vec![0u8; 4]);
    assert!(reg.write(h, &buf, 0, 2).is_ok());
}

#[test]
fn handle_stays_usable_after_each_call() {
    let mut reg = Registry::new();
    let h = reg.open_loopback();
    let a = vec![1u8, 1];
    let b = vec![2u8, 2, 2];
    assert!(reg.write(h, &a, 0, 2).is_ok());
    assert!(reg.write(h, &b, 0, 3).is_ok());
    let mut buf = vec![0u8; 3];
    assert_eq!(reg.read(h, &mut buf, 0).unwrap(), 2);
    assert_eq!(&buf[..2], &[1, 1]);
    assert_eq!(reg.read(h, &mut buf, 0).unwrap(), 3);
    assert_eq!(buf, vec![2, 2, 2]);
}

#[test]
fn out_of_range_write_fails_and_sends_nothing() {
    let mut reg = Registry::new();
    let h = reg.open_loopback();
    let src = vec![9u8; 4];
    assert!(matches!(reg.write(h, &src, 2, 3), Err(SockError::BufferTooSmall)));
    assert!(matches!(reg.write(h, &src, 5, 0), Err(SockError::BufferTooSmall)));
    // nothing was transmitted: the medium is still empty
    let mut buf = vec![0u8; 4];
    assert!(matches!(reg.read(h, &mut buf, 0), Err(SockError::Timeout)));
}

#[test]
fn zero_length_write_is_refused() {
    let mut reg = Registry::new();
    let h = reg.open_loopback();
    let src = vec![1u8, 2, 3];
    assert!(matches!(reg.write(h, &src, 1, 0), Err(SockError::IoError(_))));
    // nothing was placed on the medium
    let mut buf = vec![0u8; 4];
    assert!(matches!(reg.read(h, &mut buf, 0), Err(SockError::Timeout)));
    // and the handle stays usable
    assert!(reg.write(h, &src, 0, 3).is_ok());
}

#[test]
fn read_into_too_small_range_copies_nothing() {
    let mut reg = Registry::new();
    let h = reg.open_loopback();
    let src = vec![5u8; 6];
    assert!(reg.write(h, &src, 0, 6).is_ok());
    let mut buf = vec![0u8; 4];
    assert!(matches!(reg.read(h, &mut buf, 2), Err(SockError::BufferTooSmall)));
    assert_eq!(buf, vec![0u8; 4]);
}

#[test]
fn closed_handle_is_rejected() {
    let mut reg = Registry::new();
    let h = reg.open_loopback();
    assert!(reg.close(h).is_ok());
    let mut buf = vec![0u8; 2];
    assert!(matches!(reg.read(h, &mut buf, 0), Err(SockError::InvalidHandle)));
    assert!(matches!(reg.write(h, &buf, 0, 1), Err(SockError::InvalidHandle)));
    assert!(matches!(reg.close(h), Err(SockError::InvalidHandle)));
}

#[test]
fn handles_are_independent_and_values_never_reused() {
    let mut reg = Registry::new();
    let h1 = reg.open_loopback();
    let h2 = reg.open_loopback();
    assert_ne!(h1, h2);
    let f = vec![3u8];
    assert!(reg.write(h1, &f, 0, 1).is_ok());
    let mut buf = vec![0u8; 1];
    assert!(matches!(reg.read(h2, &mut buf, 0), Err(SockError::Timeout)));
    assert_eq!(reg.read(h1, &mut buf, 0).unwrap(), 1);
    assert!(reg.close(h1).is_ok());
    let h3 = reg.open_loopback();
    assert_ne!(h3, h1);
}

#[test]
fn raw_sock_wraps_one_channel() {
    let _sock = RawSock::new(Link::new_loopback());
}

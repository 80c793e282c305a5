use rsocks5::addr::{IpAddr, Ipv4Addr, Ipv6Addr, SocketAddr};
use rsocks5::error::Socks5Error;
use rsocks5::relay::{Relay, Transferred};

#[test]
fn relay_test_relay_new() {
    let client_ip = IpAddr::V4(Ipv4Addr::new(192, 168, 1, 100));
    let client_port = 54321;
    let client_addr = SocketAddr::new(client_ip, client_port);
    let target_addr = "example.com:443".to_string();

    let relay = Relay::new(client_addr, target_addr.clone());

    assert_eq!(relay.client_addr(), client_addr);
    assert_eq!(relay.target_addr(), &target_addr);
}

#[test]
fn relay_test_test_relay_new() {
    let client_ip = IpAddr::V4(Ipv4Addr::new(192, 168, 1, 100));
    let client_port = 54321;
    let client_addr = SocketAddr::new(client_ip, client_port);
    let target_addr = "example.com:443".to_string();

    let relay = Relay::new(client_addr, target_addr.clone());

    assert_eq!(relay.client_addr(), client_addr);
    assert_eq!(relay.target_addr(), &target_addr);
}

fn relay() -> Relay {
    let ip = IpAddr::V6(Ipv6Addr { bits: 1 });
    Relay::new(SocketAddr::new(ip, 40000), "example.com:80".to_string())
}

#[test]
fn relay_finish_both_directions_done() {
    let r = relay().finish(Ok(14), Ok(2048));
    assert_eq!(r.unwrap(), Transferred { from_client: 14, from_target: 2048 });
}

#[test]
fn relay_finish_client_side_error() {
    let r = relay().finish(Err("reset".to_string()), Ok(5));
    match r {
        Err(Socks5Error::RelayError(m)) => {
            assert_eq!(m, "Error copying data from client to target: reset")
        }
        other => panic!("unexpected {:?}", other),
    }
}

#[test]
fn relay_finish_target_side_error() {
    let r = relay().finish(Ok(0), Err("broken pipe".to_string()));
    match r {
        Err(Socks5Error::RelayError(m)) => {
            assert_eq!(m, "Error copying data from target to client: broken pipe")
        }
        other => panic!("unexpected {:?}", other),
    }
}

#[test]
fn relay_finish_both_errors_reports_client_side() {
    let r = relay().finish(Err("a".to_string()), Err("b".to_string()));
    match r {
        Err(Socks5Error::RelayError(m)) => {
            assert_eq!(m, "Error copying data from client to target: a")
        }
        other => panic!("unexpected {:?}", other),
    }
}

use metaphy_network::address::{parse_address, Address, AddressError, PeerKey};
use metaphy_network::command::{dial_command, DialError, NetworkCommand};

#[test]
fn parses_ip4_tcp_address() {
    let a = parse_address("/ip4/127.0.0.1/tcp/4001").unwrap();
    assert_eq!(a.bytes, vec![4, 127, 0, 0, 1, 6, 0x0f, 0xa1]);
}

#[test]
fn empty_text_is_empty_address() {
    let a = parse_address("").unwrap();
    assert!(a.bytes.is_empty());
}

#[test]
fn rejects_text_without_leading_slash() {
    assert!(matches!(parse_address("ip4/127.0.0.1"), Err(AddressError::Malformed)));
}

#[test]
fn rejects_unknown_protocol() {
    assert!(matches!(parse_address("/nonsense/1"), Err(AddressError::Malformed)));
}

#[test]
fn dial_of_invalid_address_fails_at_once() {
    assert!(matches!(dial_command("not an address"), Err(DialError::InvalidAddress)));
}

#[test]
fn dial_of_valid_address_targets_it() {
    match dial_command("/ip4/10.0.0.2/udp/9") {
        Ok(NetworkCommand::Dial(a)) => assert_eq!(a.bytes, vec![4, 10, 0, 0, 2, 0x91, 0x02, 0, 9]),
        Err(_) => panic!("valid address refused"),
    }
}

#[test]
fn byte_equality_of_keys_and_addresses() {
    let p = PeerKey::new(vec![1, 2, 3]);
    assert!(p.same(&p.duplicate()));
    assert!(!p.same(&PeerKey::new(vec![1, 2])));
    let a = Address::new(vec![9, 9]);
    assert!(a.same(&a.duplicate()));
    assert!(!a.same(&Address::new(vec![9, 8])));
}

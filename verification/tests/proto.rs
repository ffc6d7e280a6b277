use chord_node::address::IpAddr;
use chord_node::proto::IpAddress;
use chord_node::proto::IpParseError;
use chord_node::proto::IpVersion;

#[test]
fn parse_ipv4() {
    fn addr(addr: Vec<u8>) -> IpAddress {
        IpAddress {
            version: IpVersion::Ipv4.number(),
            address: addr,
        }
    }

    let valid_ip = addr(vec![127, 0, 0, 1]);
    let invalid_ip = IpAddr::try_from(addr(vec![127, 0, 0, 1, 2]));

    assert_eq!(
        IpAddr::V4([127, 0, 0, 1]),
        IpAddr::try_from(valid_ip).unwrap()
    );
    assert!(invalid_ip.is_err());
    assert_eq!("Invalid IPv4 address", invalid_ip.err().unwrap().to_string());

    let invalid_ip = IpAddr::try_from(addr(vec![127, 0]));
    assert!(invalid_ip.is_err());
    assert_eq!("Invalid IPv4 address", invalid_ip.err().unwrap().to_string());
}

#[test]
fn parse_ipv6() {
    fn addr(addr: Vec<u8>) -> IpAddress {
        IpAddress {
            version: IpVersion::Ipv6.number(),
            address: addr,
        }
    }

    // fd9f:9b7:9d0e::
    let ipv6 = IpAddr::V6([0xfd9f, 0x9b7, 0x9d0e, 0, 0, 0, 0, 0]);

    let mut valid_bytes = vec![253, 159, 9, 183, 157, 14];
    valid_bytes.resize(16, 0);
    let valid_ip = addr(valid_bytes);
    let invalid_ip = IpAddr::try_from(addr(vec![127, 0, 0, 1, 2]));

    assert_eq!(ipv6, IpAddr::try_from(valid_ip).unwrap());
    assert!(invalid_ip.is_err());
    assert_eq!("Invalid IPv6 address", invalid_ip.err().unwrap().to_string());

    let invalid_ip = IpAddr::try_from(addr(vec![127, 0]));
    assert!(invalid_ip.is_err());
    assert_eq!("Invalid IPv6 address", invalid_ip.err().unwrap().to_string());
}

#[test]
fn unknown_version_is_rejected() {
    let message = IpAddress {
        version: 2,
        address: vec![127, 0, 0, 1],
    };
    assert!(!message.is_v4());
    assert!(!message.is_v6());
    assert_eq!(
        IpAddr::try_from(message),
        Err(IpParseError::new("Invalid IP address"))
    );
    let message = IpAddress {
        version: -1,
        address: vec![0; 16],
    };
    assert_eq!(
        IpAddr::try_from(message).unwrap_err().to_string(),
        "Invalid IP address"
    );
}

#[test]
fn version_numbers() {
    assert_eq!(IpVersion::Ipv4.number(), 0);
    assert_eq!(IpVersion::Ipv6.number(), 1);
    let v4 = IpAddress {
        version: 0,
        address: vec![],
    };
    assert!(v4.is_v4());
    assert!(!v4.is_v6());
    let v6 = IpAddress {
        version: 1,
        address: vec![],
    };
    assert!(v6.is_v6());
    assert!(!v6.is_v4());
}

#[test]
fn sixteen_bytes_under_ipv4_are_rejected() {
    let message = IpAddress {
        version: IpVersion::Ipv4.number(),
        address: vec![0; 16],
    };
    assert_eq!(
        IpAddr::try_from(message).unwrap_err().to_string(),
        "Invalid IPv4 address"
    );
}

#[test]
fn message_of_an_ipv4_address() {
    let message = IpAddress::from(IpAddr::V4([10, 0, 0, 7]));
    assert_eq!(
        message,
        IpAddress {
            version: 0,
            address: vec![10, 0, 0, 7],
        }
    );
}

#[test]
fn message_of_an_ipv6_address() {
    let message = IpAddress::from(IpAddr::V6([0xfd9f, 0x9b7, 0x9d0e, 0, 0, 0, 0, 0x0102]));
    assert_eq!(
        message,
        IpAddress {
            version: 1,
            address: vec![253, 159, 9, 183, 157, 14, 0, 0, 0, 0, 0, 0, 0, 0, 1, 2],
        }
    );
}

#[test]
fn ip_addresses_survive_the_round_trip() {
    let samples = [
        IpAddr::V4([0, 0, 0, 0]),
        IpAddr::V4([255, 255, 255, 255]),
        IpAddr::V4([127, 0, 0, 1]),
        IpAddr::V6([0; 8]),
        IpAddr::V6([u16::MAX; 8]),
        IpAddr::V6([0x2001, 0xdb8, 0, 0, 0, 0xff00, 0x42, 0x8329]),
        IpAddr::V6([0x00ff, 0xff00, 0x0100, 0x0001, 0x8000, 0x0080, 0x7fff, 0xff7f]),
    ];
    for ip in samples {
        assert_eq!(IpAddr::try_from(IpAddress::from(ip)), Ok(ip));
    }
}

#[test]
fn error_keeps_its_text() {
    assert_eq!(IpParseError::new("Invalid IP address").to_string(), "Invalid IP address");
    assert_eq!(IpParseError::new("").to_string(), "");
}

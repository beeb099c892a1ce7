use embclox::cmdline::{parse_ipv4, parse_ipv4_cidr, parse_net_mode, NetMode, StaticDefaults};

const D: StaticDefaults = StaticDefaults {
    ip: [10, 0, 0, 5],
    prefix: 24,
    gw: [10, 0, 0, 1],
};

#[test]
fn empty_cmdline_uses_defaults() {
    assert_eq!(
        parse_net_mode("", D),
        NetMode::Static {
            ip: [10, 0, 0, 5],
            prefix: 24,
            gw: [10, 0, 0, 1]
        }
    );
}

#[test]
fn net_dhcp() {
    assert_eq!(parse_net_mode("net=dhcp", D), NetMode::Dhcp);
    assert_eq!(parse_net_mode("foo net=DHCP bar", D), NetMode::Dhcp);
}

#[test]
fn net_static_with_overrides() {
    assert_eq!(
        parse_net_mode("net=static ip=192.168.1.50/16 gw=192.168.1.1", D),
        NetMode::Static {
            ip: [192, 168, 1, 50],
            prefix: 16,
            gw: [192, 168, 1, 1]
        }
    );
}

#[test]
fn unknown_tokens_ignored() {
    assert_eq!(
        parse_net_mode("foo=bar baz net=dhcp quux", D),
        NetMode::Dhcp
    );
}

#[test]
fn malformed_ip_falls_back_to_default() {
    assert_eq!(
        parse_net_mode("net=static ip=not.an.ip/24", D),
        NetMode::Static {
            ip: [10, 0, 0, 5],
            prefix: 24,
            gw: [10, 0, 0, 1]
        }
    );
}

#[test]
fn out_of_range_prefix_falls_back() {
    assert_eq!(parse_ipv4_cidr("10.0.0.1/33"), None);
}

#[test]
fn last_net_token_wins() {
    assert_eq!(parse_net_mode("net=dhcp net=static", D), D_STATIC);
    assert_eq!(parse_net_mode("net=static\tnet=Dhcp", D), NetMode::Dhcp);
}

const D_STATIC: NetMode = NetMode::Static {
    ip: [10, 0, 0, 5],
    prefix: 24,
    gw: [10, 0, 0, 1],
};

#[test]
fn ipv4_requires_exactly_four_octets() {
    assert_eq!(parse_ipv4("1.2.3.4"), Some([1, 2, 3, 4]));
    assert_eq!(parse_ipv4("1.2.3"), None);
    assert_eq!(parse_ipv4("1.2.3.4.5"), None);
    assert_eq!(parse_ipv4("1..3.4"), None);
    assert_eq!(parse_ipv4("256.0.0.1"), None);
    assert_eq!(parse_ipv4("+1.02.3.255"), Some([1, 2, 3, 255]));
    assert_eq!(parse_ipv4("-1.2.3.4"), None);
}

#[test]
fn cidr_edge_cases() {
    assert_eq!(parse_ipv4_cidr("10.0.0.1/32"), Some(([10, 0, 0, 1], 32)));
    assert_eq!(parse_ipv4_cidr("10.0.0.1/0"), Some(([10, 0, 0, 1], 0)));
    assert_eq!(parse_ipv4_cidr("10.0.0.1"), None);
    assert_eq!(parse_ipv4_cidr("10.0.0.1/8/8"), None);
    assert_eq!(parse_ipv4_cidr("10.0.0.1/"), None);
}

#[test]
fn gateway_override_and_fallback() {
    assert_eq!(
        parse_net_mode("gw=1.1.1.1", D),
        NetMode::Static { ip: [10, 0, 0, 5], prefix: 24, gw: [1, 1, 1, 1] }
    );
    assert_eq!(
        parse_net_mode("gw=1.1.1 ip=10.1.2.3/33", D),
        D_STATIC
    );
}

#[test]
fn ipv4_parse_round_trips_dotted_decimal() {
    for ip in [[0u8, 0, 0, 0], [255, 255, 255, 255], [10, 0, 99, 100], [192, 168, 1, 9]] {
        let s = format!("{}.{}.{}.{}", ip[0], ip[1], ip[2], ip[3]);
        assert_eq!(parse_ipv4(&s), Some(ip));
    }
    for bad in ["1.2.3", "1.2.3.4.5", "256.0.0.1", "not.an.ip"] {
        assert_eq!(parse_ipv4(bad), None);
    }
}

use traffic_runner::addr::Ipv4Address;
use traffic_runner::numfmt::dec_string;
use traffic_runner::plan::{plan, PlanError, RunConfig, MAX_HOSTS};

fn config(base: Ipv4Address, end: Ipv4Address) -> Result<RunConfig, PlanError> {
    RunConfig::new(
        base,
        end,
        24,
        "eth0".to_string(),
        "ns".to_string(),
        Ipv4Address::from_octets(10, 0, 1, 100),
        "test.txt".to_string(),
    )
}

#[test]
fn decimal_rendering() {
    assert_eq!(dec_string(0), "0");
    assert_eq!(dec_string(7), "7");
    assert_eq!(dec_string(10), "10");
    assert_eq!(dec_string(305), "305");
    assert_eq!(dec_string(999_999_999), "999999999");
    assert_eq!(dec_string(999_999_999).len(), 9);
}

#[test]
fn dotted_quad_rendering() {
    assert_eq!(Ipv4Address::from_octets(10, 0, 1, 1).dotted(), "10.0.1.1");
    assert_eq!(Ipv4Address::from_octets(192, 168, 20, 101).dotted(), "192.168.20.101");
    assert_eq!(Ipv4Address::from_octets(0, 0, 0, 0).dotted(), "0.0.0.0");
    assert_eq!(Ipv4Address::from_octets(255, 255, 255, 255).dotted(), "255.255.255.255");
}

#[test]
fn octets_round_trip() {
    let a = Ipv4Address::from_octets(172, 16, 254, 3);
    assert_eq!(a.octets(), (172, 16, 254, 3));
}

#[test]
fn plan_scenario_three_hosts() {
    // base 10.0.1.1, end 10.0.1.4: three descriptors, the end address excluded.
    let cfg = config(
        Ipv4Address::from_octets(10, 0, 1, 1),
        Ipv4Address::from_octets(10, 0, 1, 4),
    )
    .unwrap();
    assert_eq!(cfg.count, 3);
    let descs = plan(&cfg);
    assert_eq!(descs.len(), 3);

    let expected_addrs = ["10.0.1.1", "10.0.1.2", "10.0.1.3"];
    for (i, d) in descs.iter().enumerate() {
        assert_eq!(d.index, i);
        assert_eq!(d.address.dotted(), expected_addrs[i]);
        assert_eq!(d.namespace_name, format!("ns{}", i));
        assert_eq!(d.interface_name, format!("macvlan{}", i));
        assert_eq!(d.cidr, format!("{}/24", expected_addrs[i]));
    }
}

#[test]
fn plan_counts_match_range() {
    let cfg = config(
        Ipv4Address::from_octets(10, 0, 0, 0),
        Ipv4Address::from_octets(10, 0, 0, 10),
    )
    .unwrap();
    assert_eq!(cfg.count, 10);
    let descs = plan(&cfg);
    assert_eq!(descs.len(), 10);
    for (i, d) in descs.iter().enumerate() {
        assert_eq!(d.index, i);
        assert_eq!(d.address.octets(), (10, 0, 0, i as u8));
    }
}

#[test]
fn plan_crosses_octet_boundary() {
    let cfg = config(
        Ipv4Address::from_octets(10, 0, 0, 254),
        Ipv4Address::from_octets(10, 0, 1, 2),
    )
    .unwrap();
    assert_eq!(cfg.count, 4);
    let descs = plan(&cfg);
    assert_eq!(descs[0].address.dotted(), "10.0.0.254");
    assert_eq!(descs[1].address.dotted(), "10.0.0.255");
    assert_eq!(descs[2].address.dotted(), "10.0.1.0");
    assert_eq!(descs[3].address.dotted(), "10.0.1.1");
}

#[test]
fn plan_empty_range() {
    let base = Ipv4Address::from_octets(10, 0, 1, 1);
    let cfg = config(base, base).unwrap();
    assert_eq!(cfg.count, 0);
    let descs = plan(&cfg);
    assert_eq!(descs.len(), 0);
}

#[test]
fn plan_invalid_range() {
    let r = config(
        Ipv4Address::from_octets(10, 0, 1, 4),
        Ipv4Address::from_octets(10, 0, 1, 1),
    );
    assert_eq!(r.unwrap_err(), PlanError::InvalidRange);
}

#[test]
fn plan_name_limit_boundary() {
    // MAX_HOSTS is the largest count whose highest index still renders an
    // interface name within the 16-character limit: "macvlan" + 9 digits.
    assert_eq!(MAX_HOSTS, 1_000_000_000);
    assert_eq!(format!("macvlan{}", MAX_HOSTS - 1).len(), 16);
    assert_eq!(format!("macvlan{}", MAX_HOSTS).len(), 17);

    let base = Ipv4Address::from_octets(0, 0, 0, 0);
    // 1_000_000_000 = 0x3B9ACA00, 1_000_000_001 = 0x3B9ACA01.
    let at_limit = Ipv4Address::from_octets(0x3B, 0x9A, 0xCA, 0x00);
    let over_limit = Ipv4Address::from_octets(0x3B, 0x9A, 0xCA, 0x01);

    let ok = config(base, at_limit).unwrap();
    assert_eq!(ok.count, MAX_HOSTS);
    assert_eq!(config(base, over_limit).unwrap_err(), PlanError::NameLimitExceeded);
}

#[test]
fn plan_names_are_unique() {
    let cfg = config(
        Ipv4Address::from_octets(10, 0, 0, 0),
        Ipv4Address::from_octets(10, 0, 0, 12),
    )
    .unwrap();
    let descs = plan(&cfg);
    for i in 0..descs.len() {
        for j in 0..i {
            assert_ne!(descs[i].namespace_name, descs[j].namespace_name);
            assert_ne!(descs[i].interface_name, descs[j].interface_name);
        }
    }
}

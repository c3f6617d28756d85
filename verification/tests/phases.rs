use traffic_runner::addr::Ipv4Address;
use traffic_runner::command::CommandLine;
use traffic_runner::dispatch::{client_command, drain};
use traffic_runner::plan::{plan, HostDescriptor, RunConfig};
use traffic_runner::provision::{Provisioner, ProvisionStep, STEPS_PER_HOST};
use traffic_runner::reclaim::Reclaimer;

fn three_hosts() -> Vec<HostDescriptor> {
    let cfg = RunConfig::new(
        Ipv4Address::from_octets(10, 0, 1, 1),
        Ipv4Address::from_octets(10, 0, 1, 4),
        24,
        "eth0".to_string(),
        "ns".to_string(),
        Ipv4Address::from_octets(10, 0, 1, 100),
        "test.txt".to_string(),
    )
    .unwrap();
    plan(&cfg)
}

fn args_of(c: &CommandLine) -> Vec<&str> {
    c.args.iter().map(|s| s.as_str()).collect()
}

#[test]
fn provision_step_sequence_for_one_host() {
    let descs = three_hosts();
    let parent = "eth0".to_string();
    let mut prov = Provisioner::new(descs, parent);

    let expected: [Vec<&str>; 7] = [
        vec!["netns", "add", "ns0"],
        vec!["link", "add", "macvlan0", "link", "eth0", "type", "macvlan", "mode", "bridge"],
        vec!["link", "set", "macvlan0", "netns", "ns0"],
        vec!["netns", "exec", "ns0", "ip", "addr", "add", "10.0.1.1/24", "dev", "macvlan0"],
        vec!["netns", "exec", "ns0", "ip", "link", "set", "macvlan0", "up"],
        vec!["netns", "exec", "ns0", "ip", "link", "set", "lo", "up"],
        vec!["netns", "exec", "ns0", "ip", "route", "add", "default", "dev", "macvlan0"],
    ];
    for want in expected.iter() {
        let c = prov.current_command().unwrap();
        assert_eq!(c.program, "/usr/sbin/ip");
        assert_eq!(&args_of(&c), want);
        prov.record_success();
    }
    // The next command starts the next descriptor.
    let c = prov.current_command().unwrap();
    assert_eq!(args_of(&c), vec!["netns", "add", "ns1"]);
}

#[test]
fn provision_full_run_succeeds() {
    let descs = three_hosts();
    let mut prov = Provisioner::new(descs, "eth0".to_string());
    let mut issued = 0;
    while let Some(_c) = prov.current_command() {
        prov.record_success();
        issued += 1;
    }
    assert_eq!(issued, 3 * STEPS_PER_HOST);
    assert!(prov.into_result().is_ok());
}

#[test]
fn provision_failure_halts_later_descriptors() {
    let descs = three_hosts();
    let mut prov = Provisioner::new(descs, "eth0".to_string());

    // Descriptor 0 provisions fully; descriptor 1 fails at its third step.
    for _ in 0..STEPS_PER_HOST {
        assert!(prov.current_command().is_some());
        prov.record_success();
    }
    prov.record_success();
    prov.record_success();
    assert!(prov.current_command().is_some());
    prov.record_failure("device busy".to_string());

    // No further step is attempted, for this or any later descriptor.
    assert!(prov.current_command().is_none());

    let err = prov.into_result().unwrap_err();
    assert_eq!(err.index, 1);
    assert_eq!(err.step, ProvisionStep::MoveInterface);
    assert_eq!(err.cause, "device busy");
}

#[test]
fn provision_failure_on_first_step() {
    let descs = three_hosts();
    let mut prov = Provisioner::new(descs, "eth0".to_string());
    prov.record_failure("permission denied".to_string());
    assert!(prov.current_command().is_none());
    let err = prov.into_result().unwrap_err();
    assert_eq!(err.index, 0);
    assert_eq!(err.step, ProvisionStep::CreateNamespace);
}

#[test]
fn reclaim_attempts_every_descriptor() {
    let descs = three_hosts();
    let mut rec = Reclaimer::new(descs);

    // The middle deletion fails; the others are still attempted.
    let mut seen: Vec<Vec<String>> = Vec::new();
    let mut at: usize = 0;
    while let Some(c) = rec.current_command() {
        assert_eq!(c.program, "/usr/sbin/ip");
        seen.push(c.args.clone());
        if at == 1 {
            rec.record_failure("namespace busy".to_string());
        } else {
            rec.record_success();
        }
        at += 1;
    }
    assert_eq!(seen.len(), 3);
    for (i, args) in seen.iter().enumerate() {
        assert_eq!(args, &vec!["netns".to_string(), "del".to_string(), format!("ns{}", i)]);
    }

    let failures = rec.failures();
    assert_eq!(failures.len(), 1);
    assert_eq!(failures[0].index, 1);
    assert_eq!(failures[0].cause, "namespace busy");
}

#[test]
fn reclaim_all_failures_still_covers_all() {
    let descs = three_hosts();
    let mut rec = Reclaimer::new(descs);
    let mut attempts = 0;
    while let Some(_c) = rec.current_command() {
        rec.record_failure("no such namespace".to_string());
        attempts += 1;
    }
    assert_eq!(attempts, 3);
    assert_eq!(rec.failures().len(), 3);
    for (i, f) in rec.failures().iter().enumerate() {
        assert_eq!(f.index, i);
    }
}

#[test]
fn client_command_exact_invocation() {
    let descs = three_hosts();
    let server = Ipv4Address::from_octets(10, 0, 1, 100);
    let file = "test.txt".to_string();
    let c = client_command(&descs[0], server, &file);
    assert_eq!(c.program, "/usr/sbin/ip");
    assert_eq!(
        args_of(&c),
        vec![
            "netns",
            "exec",
            "ns0",
            "smbclient",
            "-Uguest",
            "-N",
            "//10.0.1.100/public/",
            "10.0.1.100",
            "-c",
            "get test.txt",
        ]
    );
}

#[test]
fn drain_receives_exactly_count_in_any_order() {
    // Workers finish in arbitrary order; only the count of signals matters.
    let orders: [Vec<i32>; 3] = [vec![2, 1, 0], vec![0, 2, 1], vec![1, 0, 2]];
    for order in orders.iter() {
        let (tx, rx) = flume::bounded::<i32>(10);
        for v in order.iter() {
            tx.send(*v).unwrap();
        }
        drop(tx);
        let outcome = drain(&rx, 3);
        assert!(!outcome.disconnected);
        assert_eq!(outcome.signals.len(), 3);
        assert_eq!(&outcome.signals, order);
        // No fourth receive was attempted: the channel still reports
        // disconnection only when asked again.
        assert!(rx.try_recv().is_err());
    }
}

#[test]
fn drain_zero_count_returns_immediately() {
    let (tx, rx) = flume::bounded::<i32>(1);
    // Even with a signal waiting, a zero-count drain performs no receive.
    tx.send(7).unwrap();
    drop(tx);
    let outcome = drain(&rx, 0);
    assert!(!outcome.disconnected);
    assert_eq!(outcome.signals.len(), 0);
    assert_eq!(rx.try_recv().unwrap(), 7);
}

#[test]
fn drain_reports_early_disconnect() {
    // A worker that could not start its subprocess never sends; once every
    // sender is gone the drain stops short instead of blocking forever.
    let (tx, rx) = flume::bounded::<i32>(10);
    tx.send(0).unwrap();
    tx.send(0).unwrap();
    drop(tx);
    let outcome = drain(&rx, 3);
    assert!(outcome.disconnected);
    assert_eq!(outcome.signals.len(), 2);
}

#[test]
fn drain_with_capacity_smaller_than_count() {
    // Correctness does not depend on the queue capacity covering the count.
    let (tx, rx) = flume::bounded::<i32>(2);
    tx.send(0).unwrap();
    tx.send(1).unwrap();
    let outcome_first = drain(&rx, 2);
    assert!(!outcome_first.disconnected);
    tx.send(2).unwrap();
    drop(tx);
    let outcome_second = drain(&rx, 1);
    assert!(!outcome_second.disconnected);
    assert_eq!(outcome_second.signals, vec![2]);
}

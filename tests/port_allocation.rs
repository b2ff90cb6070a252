use redeployer::config::{PORT_RANGE_END, PORT_RANGE_START, PROBE_ATTEMPTS};
use redeployer::ports::{allocate_port, port_admissible, PortSearch, ProbeVerdict};
use std::cell::Cell;

#[test]
fn all_candidates_bound_gives_unavailable() {
    let probes = Cell::new(0u32);
    let r = allocate_port(None, |_p: u16| {
        probes.set(probes.get() + 1);
        false
    });
    assert_eq!(r, None);
    assert_eq!(probes.get(), PROBE_ATTEMPTS);
}

#[test]
fn free_field_gives_port_in_range_not_live() {
    for _ in 0..200 {
        let r = allocate_port(Some(8500), |_p: u16| true).expect("a port");
        assert!(PORT_RANGE_START <= r && r < PORT_RANGE_END);
        assert_ne!(r, 8500);
    }
}

#[test]
fn every_port_free_gives_a_port() {
    for _ in 0..200 {
        assert!(allocate_port(None, |_p: u16| true).is_some());
    }
}

#[test]
fn returned_port_passed_its_probe() {
    let r = allocate_port(None, |p: u16| p % 2 == 0);
    if let Some(p) = r {
        assert_eq!(p % 2, 0);
    }
}

#[test]
fn candidates_lie_in_range() {
    let s = PortSearch::new(None);
    for _ in 0..1000 {
        let c = s.candidate();
        assert!(PORT_RANGE_START <= c && c < PORT_RANGE_END);
    }
}

#[test]
fn candidates_are_drawn_not_fixed() {
    let s = PortSearch::new(None);
    let first = s.candidate();
    let mut differs = false;
    for _ in 0..1000 {
        if s.candidate() != first {
            differs = true;
        }
    }
    assert!(differs);
}

#[test]
fn admissible_ports() {
    assert!(port_admissible(8001, None));
    assert!(port_admissible(8999, Some(8001)));
    assert!(!port_admissible(8001, Some(8001)));
    assert!(!port_admissible(8000, None));
    assert!(!port_admissible(9000, None));
}

#[test]
fn live_port_is_not_worth_probing() {
    let s = PortSearch::new(Some(8600));
    assert!(!s.worth_probing(8600));
    assert!(s.worth_probing(8601));
    assert!(!s.worth_probing(8000));
    assert!(!s.worth_probing(9000));
    assert!(s.worth_probing(8999));
}

#[test]
fn verdicts_follow_probe_results() {
    let mut s = PortSearch::new(Some(8600));
    assert_eq!(s.record(8700, true), ProbeVerdict::Found(8700));
    let mut s2 = PortSearch::new(Some(8600));
    assert_eq!(s2.record(8600, true), ProbeVerdict::Retry);
    for _ in 1..PROBE_ATTEMPTS - 1 {
        assert_eq!(s2.record(8700, false), ProbeVerdict::Retry);
    }
    assert_eq!(s2.record(8700, false), ProbeVerdict::Unavailable);
    assert_eq!(s2.attempts, PROBE_ATTEMPTS);
    assert_eq!(s.attempts, 1);
}

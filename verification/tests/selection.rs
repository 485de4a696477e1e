//! Tests of round-robin backend selection.

use mik::runtime::lb::backend::Backend;
use mik::runtime::lb::proxy::{select_backend, selection_failure_response, SelectResult};
use mik::runtime::lb::selection::{RoundRobin, Selection};

#[test]
fn test_round_robin_basic() {
    let mut rr = RoundRobin::new(3);
    let healthy = vec![0, 1, 2];

    let mut selections = Vec::new();
    for _ in 0..6 {
        selections.push(rr.select(&healthy).unwrap());
    }

    assert_eq!(selections.iter().filter(|&&x| x == 0).count(), 2);
    assert_eq!(selections.iter().filter(|&&x| x == 1).count(), 2);
    assert_eq!(selections.iter().filter(|&&x| x == 2).count(), 2);
}

#[test]
fn test_round_robin_with_unhealthy() {
    let mut rr = RoundRobin::new(3);
    let healthy = vec![0, 2];

    let mut selections = Vec::new();
    for _ in 0..4 {
        selections.push(rr.select(&healthy).unwrap());
    }

    for &idx in &selections {
        assert!(idx == 0 || idx == 2);
    }
}

#[test]
fn test_round_robin_empty() {
    let mut rr = RoundRobin::new(3);
    let healthy: Vec<usize> = vec![];

    assert!(rr.select(&healthy).is_none());
}

#[test]
fn test_round_robin_single() {
    let mut rr = RoundRobin::new(1);
    let healthy = vec![0];

    for _ in 0..5 {
        assert_eq!(rr.select(&healthy), Some(0));
    }
}

#[test]
fn round_robin_visits_in_order() {
    let mut rr = RoundRobin::new(3);
    let healthy = vec![4, 7, 9];
    let picks: Vec<usize> = (0..6).map(|_| rr.select(&healthy).unwrap()).collect();
    assert_eq!(picks, vec![4, 7, 9, 4, 7, 9]);
    let mut empty = RoundRobin::new(0);
    assert_eq!(empty.select(&healthy), Some(4));
    assert_eq!(empty.select(&healthy), Some(4));
}

#[test]
fn proxy_skips_unavailable_and_full_backends() {
    let mut backends = vec![
        Backend::http_with_options("a:1", 1, 1),
        Backend::http("b:1"),
        Backend::http("c:1"),
    ];
    backends[1].mark_unhealthy();
    backends[0].start_request();
    let mut rr = RoundRobin::new(3);
    assert_eq!(select_backend(&mut backends, &mut rr), SelectResult::Selected(2));
    assert_eq!(select_backend(&mut backends, &mut rr), SelectResult::Selected(2));
    assert!(selection_failure_response(SelectResult::Selected(2)).is_none());

    backends[2].mark_unhealthy();
    assert_eq!(select_backend(&mut backends, &mut rr), SelectResult::AllAtCapacity);
    let resp = selection_failure_response(SelectResult::AllAtCapacity).unwrap();
    assert_eq!(resp.status, 503);
    assert_eq!(resp.body, b"All backends at connection capacity");

    backends[0].mark_unhealthy();
    assert_eq!(select_backend(&mut backends, &mut rr), SelectResult::NoHealthyBackends);
    let resp = selection_failure_response(SelectResult::NoHealthyBackends).unwrap();
    assert_eq!(resp.body, b"No healthy backends available");
    assert_eq!(resp.header("content-type"), Some("text/plain"));
}

#[test]
fn backend_error_response_names_the_error() {
    let resp = mik::runtime::lb::proxy::backend_error_response("connection refused");
    assert_eq!(resp.status, 502);
    assert_eq!(resp.body_str().unwrap(), "Backend error: connection refused");
}

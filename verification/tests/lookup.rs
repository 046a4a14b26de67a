use std::cell::RefCell;

use socks5_core::address::{Address, SocketAddress};
use socks5_core::lookup::{fallback_lookup, FallbackLookup, LookupFailure};
use socks5_core::resolver::{
    candidates_for, resolve_bind_addr, ResolutionError, ResolvedAddressSet,
    ResolverInvariantViolation,
};

fn candidate(tag: u8) -> SocketAddress {
    SocketAddress::new_v4(vec![10, 0, 0, tag], tag as u16).unwrap()
}

fn three_candidates() -> Vec<SocketAddress> {
    vec![candidate(1), candidate(2), candidate(3)]
}

/// An operation that records the candidates it was invoked on and succeeds
/// only on the listed ports.
fn recording_op<'a>(
    log: &'a RefCell<Vec<u16>>,
    succeed_on: &'a [u16],
) -> impl Fn(&SocketAddress) -> Result<u16, String> + 'a {
    move |sa: &SocketAddress| {
        let port = sa.port();
        log.borrow_mut().push(port);
        if succeed_on.contains(&port) {
            Ok(port)
        } else {
            Err(format!("candidate {} failed", port))
        }
    }
}

#[test]
fn first_success_wins_and_nothing_after_is_tried() {
    let log = RefCell::new(Vec::new());
    let candidates = three_candidates();
    let blocked = vec![false, false, false];
    let (r, _) = fallback_lookup(&candidates, &blocked, recording_op(&log, &[3]));
    match r {
        Ok((idx, value)) => {
            assert_eq!(idx, 2);
            assert_eq!(value, 3);
        }
        Err(_) => panic!("lookup should succeed on the third candidate"),
    }
    // Invoked on every candidate up to the success, in order, never after it.
    assert_eq!(*log.borrow(), vec![1, 2, 3]);
}

#[test]
fn success_on_first_candidate_short_circuits() {
    let log = RefCell::new(Vec::new());
    let candidates = three_candidates();
    let blocked = vec![false, false, false];
    let (r, _) = fallback_lookup(&candidates, &blocked, recording_op(&log, &[1, 2, 3]));
    assert!(matches!(r, Ok((0, 1))));
    assert_eq!(*log.borrow(), vec![1]);
}

#[test]
fn blocked_candidate_is_never_invoked() {
    let log = RefCell::new(Vec::new());
    let candidates = three_candidates();
    let blocked = vec![false, true, false];
    let (r, _) = fallback_lookup(&candidates, &blocked, recording_op(&log, &[3]));
    assert!(matches!(r, Ok((2, 3))));
    // The first candidate failed, the second was skipped unseen.
    assert_eq!(*log.borrow(), vec![1, 3]);
}

#[test]
fn all_blocked_reports_last_candidate() {
    let log = RefCell::new(Vec::new());
    let candidates = three_candidates();
    let blocked = vec![true, true, true];
    let (r, _) = fallback_lookup(&candidates, &blocked, recording_op(&log, &[1, 2, 3]));
    match r {
        Err(LookupFailure::Blocked(c)) => assert!(c.same_as(&candidate(3))),
        _ => panic!("every candidate was blocked; the last must be reported"),
    }
    assert!(log.borrow().is_empty());
}

#[test]
fn all_failing_reports_last_error() {
    let log = RefCell::new(Vec::new());
    let candidates = three_candidates();
    let blocked = vec![false, false, false];
    let (r, _) = fallback_lookup(&candidates, &blocked, recording_op(&log, &[]));
    match r {
        Err(LookupFailure::Operation(e)) => assert_eq!(e, "candidate 3 failed"),
        _ => panic!("every candidate failed; the last error must be reported"),
    }
    assert_eq!(*log.borrow(), vec![1, 2, 3]);
}

#[test]
fn stepwise_lookup_follows_order_and_stops_on_success() {
    let mut lookup: FallbackLookup<String> = FallbackLookup::new(three_candidates()).unwrap();

    let first = lookup.next_candidate().expect("a candidate is pending");
    assert!(first.same_as(&candidate(1)));
    lookup.report_failure("no route".to_string());

    let second = lookup.next_candidate().expect("a candidate is pending");
    assert!(second.same_as(&candidate(2)));
    lookup.report_blocked();

    let third = lookup.next_candidate().expect("a candidate is pending");
    assert!(third.same_as(&candidate(3)));
    lookup.report_success();

    // After a success no candidate is ever handed out again.
    assert!(lookup.next_candidate().is_none());
}

#[test]
fn stepwise_lookup_exhaustion_keeps_last_failure() {
    let mut lookup: FallbackLookup<String> = FallbackLookup::new(three_candidates()).unwrap();
    lookup.report_failure("a".to_string());
    lookup.report_failure("b".to_string());
    lookup.report_blocked();
    assert!(lookup.next_candidate().is_none());
    match lookup.into_failure() {
        LookupFailure::Blocked(c) => assert!(c.same_as(&candidate(3))),
        LookupFailure::Operation(_) => panic!("the last candidate was blocked"),
    }
}

#[test]
fn stepwise_lookup_refuses_empty_resolution() {
    assert!(matches!(
        FallbackLookup::<String>::new(Vec::new()),
        Err(ResolverInvariantViolation)
    ));
}

#[test]
fn resolver_refuses_empty_success() {
    assert!(matches!(
        ResolvedAddressSet::new(Vec::new()),
        Err(ResolverInvariantViolation)
    ));
}

#[test]
fn resolver_keeps_order() {
    let set = ResolvedAddressSet::new(three_candidates()).unwrap();
    assert_eq!(set.len(), 3);
    assert!(set.get(0).same_as(&candidate(1)));
    assert!(set.get(1).same_as(&candidate(2)));
    assert!(set.get(2).same_as(&candidate(3)));
    let candidates = set.into_candidates();
    assert_eq!(candidates.len(), 3);
}

#[test]
fn bind_addr_for_literal_is_itself() {
    let addr = Address::Literal(candidate(9));
    let r = resolve_bind_addr(&addr, None);
    assert!(r.same_as(&candidate(9)));
}

#[test]
fn bind_addr_for_domain_is_first_resolved() {
    let addr = Address::new_domain(b"example.com".to_vec(), 80).unwrap();
    let set = ResolvedAddressSet::new(three_candidates()).unwrap();
    let r = resolve_bind_addr(&addr, Some(&set));
    assert!(r.same_as(&candidate(1)));
}

#[test]
fn candidates_for_literal_is_the_literal_alone() {
    let addr = Address::Literal(candidate(9));
    let v = candidates_for(&addr, None).unwrap();
    assert_eq!(v.len(), 1);
    assert!(v[0].same_as(&candidate(9)));
}

#[test]
fn candidates_for_domain_is_the_resolution_in_order() {
    let addr = Address::new_domain(b"example.com".to_vec(), 80).unwrap();
    let set = ResolvedAddressSet::new(three_candidates()).unwrap();
    let v = candidates_for(&addr, Some(Ok(set))).unwrap();
    assert_eq!(v.len(), 3);
    assert!(v[0].same_as(&candidate(1)));
    assert!(v[2].same_as(&candidate(3)));
}

#[test]
fn candidates_for_passes_resolution_errors_through() {
    let addr = Address::new_domain(b"example.com".to_vec(), 80).unwrap();
    match candidates_for(&addr, Some(Err(ResolutionError::Timeout))) {
        Err(e) => assert_eq!(e, ResolutionError::Timeout),
        Ok(_) => panic!("a failed resolution must be passed through"),
    }
}

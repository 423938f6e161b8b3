use icaa_core::chains::ChainName;
use icaa_core::envelope::{routed_to, DispatchEnvelope};
use icaa_core::identity::AccountIdentity;

fn cn(s: &str) -> ChainName {
    ChainName::new(s.to_string()).unwrap()
}

#[test]
fn zero_hop_build_collapses_to_leaf() {
    let e = DispatchEnvelope::build(Vec::new(), vec![1, 2, 3]);
    match e {
        DispatchEnvelope::Leaf { action } => assert_eq!(action, vec![1, 2, 3]),
        DispatchEnvelope::Hop { .. } => panic!("zero hops must not wrap"),
    }
}

#[test]
fn outermost_layer_names_the_first_hop() {
    let e = DispatchEnvelope::build(vec![cn("archway"), cn("osmosis")], vec![7]);
    match e {
        DispatchEnvelope::Hop { target, inner } => {
            assert_eq!(target.as_text(), "archway");
            match *inner {
                DispatchEnvelope::Hop { target, inner } => {
                    assert_eq!(target.as_text(), "osmosis");
                    match *inner {
                        DispatchEnvelope::Leaf { action } => assert_eq!(action, vec![7]),
                        _ => panic!("innermost layer must be the leaf"),
                    }
                }
                _ => panic!("second layer must name hop 2"),
            }
        }
        _ => panic!("outermost layer must name hop 1"),
    }
}

#[test]
fn round_trip_three_hops() {
    // Building for [A, B, C] and unwinding by A then B then C yields the
    // payload unchanged.
    let route = vec![cn("a"), cn("b"), cn("c")];
    let e = DispatchEnvelope::build(vec![cn("a"), cn("b"), cn("c")], vec![42, 43]);
    assert_eq!(e.unwind(&route), Some(vec![42, 43]));
}

#[test]
fn round_trip_zero_hops() {
    let e = DispatchEnvelope::build(Vec::new(), vec![9]);
    assert_eq!(e.unwind(&Vec::new()), Some(vec![9]));
}

#[test]
fn unwind_rejects_wrong_route() {
    let e = DispatchEnvelope::build(vec![cn("a"), cn("b")], vec![1]);
    assert_eq!(e.unwind(&vec![cn("b"), cn("a")]), None);
}

#[test]
fn unwind_rejects_short_route() {
    let e = DispatchEnvelope::build(vec![cn("a"), cn("b")], vec![1]);
    assert_eq!(e.unwind(&vec![cn("a")]), None);
}

#[test]
fn unwrap_hop_only_at_the_addressed_chain() {
    let e = DispatchEnvelope::build(vec![cn("a"), cn("b")], vec![5]);
    assert!(e.unwrap_hop(&cn("b")).is_none());
    let e = DispatchEnvelope::build(vec![cn("a"), cn("b")], vec![5]);
    let inner = e.unwrap_hop(&cn("a")).expect("hop 1 strips its own layer");
    match inner {
        DispatchEnvelope::Hop { target, .. } => assert_eq!(target.as_text(), "b"),
        _ => panic!("one layer remains after one unwrap"),
    }
}

#[test]
fn unwrap_hop_of_leaf_is_none() {
    let e = DispatchEnvelope::build(Vec::new(), vec![5]);
    assert!(e.unwrap_hop(&cn("a")).is_none());
}

#[test]
fn routed_to_local_account_is_bare() {
    let account = AccountIdentity::origin(7);
    let e = routed_to(&account, vec![8]);
    assert!(matches!(e, DispatchEnvelope::Leaf { .. }));
}

#[test]
fn routed_to_remote_account_wraps_per_hop() {
    // An account one hop out on archway takes one wrapping layer, which
    // names archway.
    let account = AccountIdentity::origin(7).extend(cn("archway"));
    let e = routed_to(&account, vec![8]);
    match e {
        DispatchEnvelope::Hop { target, inner } => {
            assert_eq!(target.as_text(), "archway");
            assert!(matches!(*inner, DispatchEnvelope::Leaf { .. }));
        }
        _ => panic!("one hop means one layer"),
    }
}

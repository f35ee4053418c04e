use murmesh::addr::SocketAddr;
use murmesh::app::{Closure, FunctionalState, Inspect, Install, Lift, State};
use murmesh::mailbox::Mailbox;
use murmesh::message::{
    Lift as MessageLift, OptionLift, Route, RouteLift, Timeout, TimeoutLift, TransportLift,
};

#[test]
fn closure_applies_the_function() {
    let mut stage = Closure(|x: u64| x + 1);
    assert_eq!(stage.update(41), 42);
    assert_eq!(stage.update(0), 1);
}

#[test]
fn install_feeds_the_stage_output_downstream() {
    let mut pipeline = Closure(|x: u64| x * 2).install(Mailbox::new());
    pipeline.update(21);
    pipeline.update(3);
    assert_eq!(pipeline.1.queue, vec![42, 6]);
}

#[test]
fn inspect_taps_and_passes_through() {
    let mut stage = Inspect(Mailbox::new());
    assert_eq!(stage.update(7u64), 7);
    assert_eq!(stage.update(9), 9);
    assert_eq!(stage.0.queue, vec![7, 9]);
}

#[test]
fn option_lift_present_value_is_transformed() {
    let mut adapter = OptionLift;
    let mut inner = Closure(|x: u64| x + 10);
    let out = MessageLift::update(&mut adapter, &mut inner, Some(5u64));
    assert_eq!(out, Some(15));
}

#[test]
fn option_lift_absent_short_circuits() {
    // An absent value must never invoke the inner stage: the tap records
    // nothing, and the output is absent.
    let mut adapter = OptionLift;
    let mut inner = Inspect(Mailbox::new());
    let out = MessageLift::update(&mut adapter, &mut inner, None::<u64>);
    assert!(out.is_none());
    assert!(inner.0.queue.is_empty());
    let out = MessageLift::update(&mut adapter, &mut inner, Some(4u64));
    assert_eq!(out, Some(4));
    assert_eq!(inner.0.queue, vec![4]);
}

#[test]
fn timeout_lift_preserves_the_tag_kind() {
    let mut adapter = TimeoutLift;
    let mut inner = Closure(|x: u64| x + 1);
    assert_eq!(
        MessageLift::update(&mut adapter, &mut inner, Timeout::Arm(1u64)),
        Timeout::Arm(2)
    );
    assert_eq!(
        MessageLift::update(&mut adapter, &mut inner, Timeout::Reset(2u64)),
        Timeout::Reset(3)
    );
    assert_eq!(
        MessageLift::update(&mut adapter, &mut inner, Timeout::Unset(3u64)),
        Timeout::Unset(4)
    );
}

#[test]
fn timeout_lift_identity_round_trip() {
    let mut adapter = TimeoutLift;
    let mut identity = Closure(|x: u64| x);
    let m = Timeout::Reset(77u64);
    assert_eq!(MessageLift::update(&mut adapter, &mut identity, m), m);
}

#[test]
fn transport_lift_preserves_the_address() {
    let addr = SocketAddr::new(0x0a00_0001, 4000);
    let mut adapter = TransportLift;
    let mut inner = Closure(|x: u64| x * 3);
    let out = MessageLift::update(&mut adapter, &mut inner, (addr, 5u64));
    assert_eq!(out, (addr, 15));
}

#[test]
fn transport_lift_identity_round_trip() {
    let addr = SocketAddr::new(9, 10);
    let mut adapter = TransportLift;
    let mut identity = Closure(|x: u64| x);
    assert_eq!(
        MessageLift::update(&mut adapter, &mut identity, (addr, 123u64)),
        (addr, 123)
    );
}

#[test]
fn route_lift_preserves_the_destination() {
    let mut adapter: RouteLift<u8> = RouteLift::default();
    let mut inner = Closure(|x: u64| x + 100);
    assert_eq!(
        MessageLift::update(&mut adapter, &mut inner, Route::To(7u8, 1u64)),
        Route::To(7, 101)
    );
    assert_eq!(
        MessageLift::update(&mut adapter, &mut inner, Route::ToAll(2u64)),
        Route::ToAll(102)
    );
}

#[test]
fn route_lift_identity_round_trip() {
    let mut adapter: RouteLift<u8> = RouteLift::default();
    let mut identity = Closure(|x: u64| x);
    let m = Route::To(3u8, 50u64);
    assert_eq!(MessageLift::update(&mut adapter, &mut identity, m), m);
    let m = Route::ToAll(60u64);
    assert_eq!(MessageLift::update(&mut adapter, &mut identity, m), m);
}

#[test]
fn route_to_builds_the_to_branch() {
    let tag = Route::to(5u8);
    assert_eq!(tag(40u64), Route::To(5, 40));
}

#[test]
fn lifted_stage_composes_with_install() {
    // A lifted stage is itself a stage: address-tagged doubling into a sink.
    let addr = SocketAddr::new(1, 2);
    let mut pipeline = Install(
        Lift(Closure(|x: u64| x * 2), TransportLift),
        Mailbox::new(),
    );
    pipeline.update((addr, 8u64));
    assert_eq!(pipeline.1.queue, vec![(addr, 16)]);
}

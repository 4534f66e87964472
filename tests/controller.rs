use topology::controller::{Action, Controller, ControllerError, Input, Phase, ESTABLISH_TIMEOUT_SECS};
use topology::event::MemberEvent;
use topology::topology::TopologySpec;

fn names(v: &[&str]) -> Vec<String> {
    v.iter().map(|s| s.to_string()).collect()
}

fn published(a: Action) -> TopologySpec {
    match a {
        Action::Publish(s) => s,
        _ => panic!("expected a publish"),
    }
}

fn sorted(v: &[String]) -> Vec<String> {
    let mut v = v.to_vec();
    v.sort();
    v
}

/// Runs a controller up to the first publish of the given listing.
fn registered_and_listed(pods: &[&str]) -> (Controller, TopologySpec) {
    let (mut c, a) = Controller::start();
    assert!(matches!(a, Action::ApplyDefinition));
    let a = c.step(Input::DefinitionApplied);
    assert!(matches!(a, Action::AwaitEstablished { timeout_secs: 10 }));
    let a = c.step(Input::Established);
    assert!(matches!(a, Action::ListPods));
    let spec = published(c.step(Input::Listed(names(pods))));
    (c, spec)
}

fn acknowledge(c: &mut Controller) {
    let a = c.step(Input::Published);
    assert!(matches!(a, Action::NextEvent));
}

#[test]
fn scenario_a_startup_snapshot() {
    let (mut c, spec) = registered_and_listed(&["p1", "p2"]);
    assert_eq!(spec.name, "default");
    assert_eq!(sorted(&spec.pods), names(&["p1", "p2"]));
    assert!(c.stored.is_none());
    acknowledge(&mut c);
    assert_eq!(c.phase, Phase::Watching);
    assert_eq!(c.stored.as_ref().unwrap().pods, spec.pods);
}

#[test]
fn scenario_b_pod_appears() {
    let (mut c, _) = registered_and_listed(&["p1", "p2"]);
    acknowledge(&mut c);
    let spec = published(c.step(Input::Event(MemberEvent::Appeared("p3".to_string()))));
    assert_eq!(spec.pods.len(), 3);
    assert_eq!(sorted(&spec.pods), names(&["p1", "p2", "p3"]));
}

#[test]
fn scenario_c_pod_disappears() {
    let (mut c, _) = registered_and_listed(&["p1", "p2"]);
    acknowledge(&mut c);
    published(c.step(Input::Event(MemberEvent::Appeared("p3".to_string()))));
    acknowledge(&mut c);
    let spec = published(c.step(Input::Event(MemberEvent::Disappeared("p1".to_string()))));
    assert_eq!(sorted(&spec.pods), names(&["p2", "p3"]));
}

#[test]
fn scenario_d_duplicate_appearance() {
    let (mut c, _) = registered_and_listed(&["p1", "p2"]);
    acknowledge(&mut c);
    published(c.step(Input::Event(MemberEvent::Appeared("p3".to_string()))));
    acknowledge(&mut c);
    let after_c = published(c.step(Input::Event(MemberEvent::Disappeared("p1".to_string()))));
    acknowledge(&mut c);
    let spec = published(c.step(Input::Event(MemberEvent::Appeared("p2".to_string()))));
    assert_eq!(spec.pods, after_c.pods);
    assert_eq!(sorted(&spec.pods), names(&["p2", "p3"]));
    acknowledge(&mut c);
    assert_eq!(c.stored.as_ref().unwrap().pods, after_c.pods);
}

#[test]
fn scenario_e_registration_timeout() {
    let (mut c, _) = Controller::start();
    c.step(Input::DefinitionApplied);
    let a = c.step(Input::EstablishTimedOut);
    assert!(matches!(a, Action::Exit(ControllerError::RegistrationTimeout)));
    assert_eq!(c.phase, Phase::Stopped(ControllerError::RegistrationTimeout));
    assert!(c.stored.is_none());
    assert!(!c.accepts(&Input::Listed(names(&["p1"]))));
    assert!(!c.accepts(&Input::Established));
}

#[test]
fn wait_uses_ten_seconds() {
    assert_eq!(ESTABLISH_TIMEOUT_SECS, 10);
}

#[test]
fn other_event_changes_nothing() {
    let (mut c, spec) = registered_and_listed(&["p1", "p2"]);
    acknowledge(&mut c);
    let a = c.step(Input::Event(MemberEvent::Other));
    assert!(matches!(a, Action::NextEvent));
    assert_eq!(c.phase, Phase::Watching);
    assert_eq!(c.spec.pods, spec.pods);
    assert_eq!(c.stored.as_ref().unwrap().pods, spec.pods);
}

#[test]
fn publishing_same_record_twice_keeps_it() {
    let (mut c, first) = registered_and_listed(&["a", "b"]);
    acknowledge(&mut c);
    let again = published(c.step(Input::Event(MemberEvent::Appeared("a".to_string()))));
    assert_eq!(again.pods, first.pods);
    acknowledge(&mut c);
    assert_eq!(c.stored.as_ref().unwrap().pods, names(&["a", "b"]));
    assert_eq!(c.stored.as_ref().unwrap().name, "default");
}

#[test]
fn definition_rejected_stops() {
    let (mut c, _) = Controller::start();
    let a = c.step(Input::DefinitionRejected);
    assert!(matches!(a, Action::Exit(ControllerError::RegistrationFailed)));
}

#[test]
fn list_failure_stops() {
    let (mut c, _) = Controller::start();
    c.step(Input::DefinitionApplied);
    c.step(Input::Established);
    let a = c.step(Input::ListFailed);
    assert!(matches!(a, Action::Exit(ControllerError::ListingFailed)));
    assert!(c.stored.is_none());
}

#[test]
fn publish_rejection_stops() {
    let (mut c, _) = registered_and_listed(&["p1"]);
    let a = c.step(Input::PublishRejected);
    assert!(matches!(a, Action::Exit(ControllerError::PublishFailed)));
    assert_eq!(c.phase, Phase::Stopped(ControllerError::PublishFailed));
}

#[test]
fn stream_end_and_failure_stop() {
    let (mut c, _) = registered_and_listed(&["p1"]);
    acknowledge(&mut c);
    let a = c.step(Input::StreamEnded);
    assert!(matches!(a, Action::Exit(ControllerError::StreamEnded)));

    let (mut d, _) = registered_and_listed(&["p1"]);
    acknowledge(&mut d);
    let a = d.step(Input::StreamFailed);
    assert!(matches!(a, Action::Exit(ControllerError::StreamError)));
}

#[test]
fn accepts_only_the_replies_awaited() {
    let (c, _) = Controller::start();
    assert!(c.accepts(&Input::DefinitionApplied));
    assert!(c.accepts(&Input::DefinitionRejected));
    assert!(!c.accepts(&Input::Published));
    assert!(!c.accepts(&Input::Event(MemberEvent::Other)));
    let (mut d, _) = registered_and_listed(&[]);
    assert!(d.accepts(&Input::Published));
    assert!(!d.accepts(&Input::StreamEnded));
    acknowledge(&mut d);
    assert!(d.accepts(&Input::Event(MemberEvent::Appeared("x".to_string()))));
}

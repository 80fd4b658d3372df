use kbehdz::actions::{scream, yell};
use kbehdz::{Bindings, KeyBindings};

fn one() -> u64 {
    1
}

fn two() -> u64 {
    2
}

fn boom() -> u64 {
    panic!("an action was invoked that never should have been");
}

#[test]
fn empty_registry_has_no_bindings() {
    let kb: KeyBindings<fn() -> u64> = KeyBindings::new();
    assert!(kb.get_action("anything").is_none());
    assert!(kb.run_action("anything").is_none());
}

#[test]
fn distinct_events_are_independent() {
    let mut kb: KeyBindings<fn() -> u64> = KeyBindings::new();
    kb.bind_key("e1", one);
    assert_eq!(kb.run_action("e1"), Some(1));
    kb.bind_key("e2", two);
    // Binding e2 leaves e1's binding untouched.
    assert_eq!(kb.run_action("e1"), Some(1));
    assert_eq!(kb.run_action("e2"), Some(2));
}

#[test]
fn rebinding_overwrites() {
    let mut kb: KeyBindings<fn() -> u64> = KeyBindings::new();
    kb.bind_key("e", one);
    kb.bind_key("e", two);
    // The second binding replaced the first: two runs, never an accumulation.
    assert_eq!(kb.run_action("e"), Some(2));
    assert_eq!(kb.run_action("e"), Some(2));
}

#[test]
fn unbound_event_returns_none_and_invokes_nothing() {
    let mut kb: KeyBindings<fn() -> u64> = KeyBindings::new();
    kb.bind_key("bound", boom);
    // An unbound key yields no value and invokes no action (boom would panic).
    assert!(kb.get_action("unbound").is_none());
    assert!(kb.run_action("unbound").is_none());
}

#[test]
fn lookup_is_borrow_transparent() {
    let mut kb: KeyBindings<fn() -> u64> = KeyBindings::new();
    kb.bind_key("content", one);
    let owned = String::from("content");
    let sliced = &"content-and-more"[..7];
    let via_owned = kb.get_action(owned.as_str());
    let via_slice = kb.get_action(sliced);
    assert!(via_owned.is_some());
    assert_eq!(via_owned, via_slice);
    assert_eq!(via_owned.unwrap()(), via_slice.unwrap()());
}

#[test]
fn lookup_is_idempotent() {
    let mut kb: KeyBindings<fn() -> u64> = KeyBindings::new();
    kb.bind_key("e", two);
    let first = kb.get_action("e");
    let second = kb.get_action("e");
    assert_eq!(first, second);
    assert_eq!(first.unwrap()(), second.unwrap()());
}

#[test]
fn scenario_yell_then_rebind_to_scream() {
    let pairs: &[(&str, fn() -> String)] = &[("X", yell), ("Y", scream)];
    let mut kb = KeyBindings::new_with_bindings(pairs);
    assert_eq!(kb.run_action("X"), Some(String::from("yell")));
    kb.bind_key("X", scream);
    assert_eq!(kb.run_action("X"), Some(String::from("scream")));
    assert_eq!(kb.run_action("Y"), Some(String::from("scream")));
}

#[test]
fn scenario_lookup_of_never_bound_key() {
    let pairs: &[(&str, fn() -> u64)] = &[("a", one)];
    let kb = KeyBindings::new_with_bindings(pairs);
    assert_eq!(kb.run_action("a"), Some(1));
    assert!(kb.get_action("b").is_none());
    assert!(kb.run_action("b").is_none());
}

#[test]
fn scenario_handles_transfer_between_keys() {
    let pairs: &[(&str, fn() -> u64)] = &[("a", one)];
    let mut kb = KeyBindings::new_with_bindings(pairs);
    let handle = kb.get_action("a").unwrap();
    kb.bind_key("b", handle);
    assert_eq!(kb.run_action("b"), kb.run_action("a"));
    assert_eq!(kb.run_action("b"), Some(1));
}

#[test]
fn bulk_construction_last_write_wins() {
    let pairs: &[(&str, fn() -> u64)] = &[("dup", one), ("other", one), ("dup", two)];
    let kb = KeyBindings::new_with_bindings(pairs);
    assert_eq!(kb.run_action("dup"), Some(2));
    assert_eq!(kb.run_action("other"), Some(1));
}

#[test]
fn sample_actions_return_their_names() {
    assert_eq!(yell(), "yell");
    assert_eq!(scream(), "scream");
}

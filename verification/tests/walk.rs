use browser_storage::cursor::StorageIntoIter;
use browser_storage::failure::Failure;
use browser_storage::handle::StorageHandle;
use wasm_bindgen::{JsCast, JsValue};

fn fresh_walk() -> StorageIntoIter {
    let object = JsValue::NULL.unchecked_into::<web_sys::Storage>();
    StorageIntoIter::new(StorageHandle::new(object))
}

fn text(s: &str) -> Option<String> {
    Some(s.to_string())
}

fn pair(k: &str, v: &str) -> Option<(String, String)> {
    Some((k.to_string(), v.to_string()))
}

#[test]
fn walk_starts_at_zero() {
    let walk = fresh_walk();
    assert_eq!(walk.position(), 0);
    assert!(!walk.is_ended());
}

#[test]
fn walk_yields_pairs_in_the_order_of_the_lookups() {
    let mut walk = fresh_walk();
    assert_eq!(walk.settle(text("second"), text("b")).ok(), Some(pair("second", "b")));
    assert_eq!(walk.position(), 1);
    assert_eq!(walk.settle(text("first"), text("a")).ok(), Some(pair("first", "a")));
    assert_eq!(walk.position(), 2);
    assert!(!walk.is_ended());
    assert_eq!(walk.settle(None, None).ok(), Some(None));
    assert!(walk.is_ended());
    assert_eq!(walk.position(), 2);
}

#[test]
fn walk_over_two_records_then_one() {
    let mut walk = fresh_walk();
    assert_eq!(walk.settle(text("b"), text("3")).ok(), Some(pair("b", "3")));
    assert_eq!(walk.settle(text("a"), text("2")).ok(), Some(pair("a", "2")));
    assert_eq!(walk.settle(None, None).ok(), Some(None));
    let mut walk = fresh_walk();
    assert_eq!(walk.settle(text("b"), text("3")).ok(), Some(pair("b", "3")));
    assert_eq!(walk.settle(None, None).ok(), Some(None));
}

#[test]
fn walk_over_nothing_ends_at_once() {
    let mut walk = fresh_walk();
    assert_eq!(walk.settle(None, None).ok(), Some(None));
    assert!(walk.is_ended());
    assert_eq!(walk.position(), 0);
}

#[test]
fn missing_key_ends_the_walk_whatever_the_value() {
    let mut walk = fresh_walk();
    assert_eq!(walk.settle(None, text("stray")).ok(), Some(None));
    assert!(walk.is_ended());
}

#[test]
fn key_without_a_value_is_a_failure_and_not_passed_over() {
    let mut walk = fresh_walk();
    assert_eq!(walk.settle(text("a"), text("1")).ok(), Some(pair("a", "1")));
    assert!(matches!(walk.settle(text("b"), None), Err(Failure::Vanished)));
    assert_eq!(walk.position(), 1);
    assert!(!walk.is_ended());
    assert_eq!(walk.settle(text("b"), text("3")).ok(), Some(pair("b", "3")));
    assert_eq!(walk.position(), 2);
}

#[test]
fn ended_walk_yields_nothing_even_when_records_appear() {
    let mut walk = fresh_walk();
    assert_eq!(walk.settle(text("a"), text("1")).ok(), Some(pair("a", "1")));
    assert_eq!(walk.settle(None, None).ok(), Some(None));
    assert_eq!(walk.settle(text("late"), text("x")).ok(), Some(None));
    assert_eq!(walk.settle(text("late"), None).ok(), Some(None));
    assert_eq!(walk.settle(None, None).ok(), Some(None));
    assert!(walk.is_ended());
    assert_eq!(walk.position(), 1);
}

#[test]
fn ended_walk_does_not_ask_the_host_again() {
    let mut walk = fresh_walk();
    assert_eq!(walk.settle(None, None).ok(), Some(None));
    assert_eq!(walk.next().ok(), Some(None));
    assert_eq!(walk.next().ok(), Some(None));
    assert_eq!(walk.next().ok(), Some(None));
    assert!(walk.is_ended());
    assert_eq!(walk.position(), 0);
}

#[test]
fn handle_turns_into_a_walk_at_the_start() {
    let object = JsValue::NULL.unchecked_into::<web_sys::Storage>();
    let mut walk = StorageHandle::new(object).into_iter();
    assert_eq!(walk.position(), 0);
    assert!(!walk.is_ended());
    assert_eq!(walk.settle(text("only"), text("one")).ok(), Some(pair("only", "one")));
    assert_eq!(walk.position(), 1);
}

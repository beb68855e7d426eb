use browser_storage::failure::{adapt, Area, Failure};
use browser_storage::handle::{position_index, require_window, StorageHandle};
use wasm_bindgen::{JsCast, JsValue};

fn some_object() -> web_sys::Storage {
    JsValue::NULL.unchecked_into::<web_sys::Storage>()
}

fn text(s: &str) -> Option<String> {
    Some(s.to_string())
}

#[test]
fn adapt_passes_a_success_through() {
    let r = adapt::<Option<String>>(Ok(text("a_val")));
    assert!(matches!(r, Ok(Some(ref v)) if v == "a_val"));
    let r = adapt::<Option<String>>(Ok(None));
    assert!(matches!(r, Ok(None)));
    let r = adapt::<u32>(Ok(7));
    assert!(matches!(r, Ok(7)));
}

#[test]
fn adapt_turns_a_thrown_value_into_a_host_failure() {
    let r = adapt::<u32>(Err(JsValue::NULL));
    assert!(matches!(r, Err(Failure::Host(_))));
    let r = adapt::<()>(Err(JsValue::UNDEFINED));
    assert!(matches!(r, Err(Failure::Host(_))));
}

#[test]
fn position_within_32_bits_is_kept() {
    assert!(matches!(position_index(0), Ok(0)));
    assert!(matches!(position_index(5), Ok(5)));
    assert!(matches!(position_index(u32::MAX as usize), Ok(u32::MAX)));
}

#[test]
fn position_beyond_32_bits_overflows() {
    if usize::BITS > 32 {
        let first = (u32::MAX as u64 + 1) as usize;
        assert!(matches!(position_index(first), Err(Failure::IndexOverflow)));
        assert!(matches!(position_index(usize::MAX), Err(Failure::IndexOverflow)));
    }
}

#[test]
fn key_beyond_32_bits_overflows_without_asking_the_host() {
    if usize::BITS > 32 {
        let handle = StorageHandle::new(some_object());
        assert!(matches!(handle.key(usize::MAX), Err(Failure::IndexOverflow)));
        let first = (u32::MAX as u64 + 1) as usize;
        assert!(matches!(handle.key(first), Err(Failure::IndexOverflow)));
    }
}

#[test]
fn missing_window_is_reported() {
    assert!(matches!(require_window(None), Err(Failure::NoWindow)));
}

#[test]
fn present_window_is_kept() {
    let window = JsValue::NULL.unchecked_into::<web_sys::Window>();
    assert!(require_window(Some(window)).is_ok());
}

#[test]
fn missing_storage_names_its_area() {
    let r = StorageHandle::from_answer(Area::Local, Ok(None));
    assert!(matches!(r, Err(Failure::Unavailable(Area::Local))));
    let r = StorageHandle::from_answer(Area::Session, Ok(None));
    assert!(matches!(r, Err(Failure::Unavailable(Area::Session))));
}

#[test]
fn thrown_value_while_opening_is_a_host_failure() {
    let r = StorageHandle::from_answer(Area::Local, Err(JsValue::NULL));
    assert!(matches!(r, Err(Failure::Host(_))));
}

#[test]
fn present_storage_is_opened() {
    assert!(StorageHandle::from_answer(Area::Session, Ok(Some(some_object()))).is_ok());
}

#[test]
fn change_returns_the_value_found_before() {
    let r = StorageHandle::after_change(text("1"), Ok(()));
    assert!(matches!(r, Ok(Some(ref v)) if v == "1"));
}

#[test]
fn change_of_an_absent_key_returns_nothing() {
    let r = StorageHandle::after_change(None, Ok(()));
    assert!(matches!(r, Ok(None)));
}

#[test]
fn failed_change_is_a_host_failure() {
    let r = StorageHandle::after_change(text("1"), Err(JsValue::NULL));
    assert!(matches!(r, Err(Failure::Host(_))));
    let r = StorageHandle::after_change(None, Err(JsValue::NULL));
    assert!(matches!(r, Err(Failure::Host(_))));
}

#[test]
fn count_is_the_host_length() {
    assert!(matches!(StorageHandle::from_length(Ok(0)), Ok(0)));
    assert!(matches!(StorageHandle::from_length(Ok(2)), Ok(2)));
    let r = StorageHandle::from_length(Ok(u32::MAX));
    assert!(matches!(r, Ok(n) if n == u32::MAX as usize));
}

#[test]
fn failed_length_is_a_host_failure() {
    let r = StorageHandle::from_length(Err(JsValue::UNDEFINED));
    assert!(matches!(r, Err(Failure::Host(_))));
}

#[test]
fn messages_of_the_library() {
    assert_eq!(
        Failure::NoWindow.message(),
        text("`window` global not available - are we on a web platform?")
    );
    assert_eq!(
        Failure::Unavailable(Area::Local).message(),
        text("local storage not available")
    );
    assert_eq!(
        Failure::Unavailable(Area::Session).message(),
        text("session storage not available")
    );
    assert_eq!(Failure::IndexOverflow.message(), text("u32 overflow on position"));
    assert_eq!(
        Failure::Vanished.message(),
        text("key without a value during iteration")
    );
}

#[test]
fn host_failure_has_no_message_of_its_own() {
    assert_eq!(Failure::Host(JsValue::NULL).message(), None);
}

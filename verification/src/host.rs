//! The host's storage interface, as far as the library calls it.
//!
//! Every function here is a direct call into the browser. What comes back
//! depends on the state of the host and nothing is claimed of it: the callers
//! are verified for every outcome. The bindings exist for the `wasm32` target;
//! on any other target they are stubs that panic.

use vstd::prelude::*;

verus! {

/// `wasm_bindgen::JsValue`: a reference to a value owned by the host, carried
/// but never inspected.
#[verifier::external_type_specification]
#[verifier::external_body]
pub struct ExJsValue(wasm_bindgen::JsValue);

/// `web_sys::Window`: the global object of a browsing context.
#[verifier::external_type_specification]
#[verifier::external_body]
pub struct ExWindow(web_sys::Window);

/// `web_sys::Storage`: a reference to one storage object of the host.
#[verifier::external_type_specification]
#[verifier::external_body]
pub struct ExStorage(web_sys::Storage);

/// Calls `web_sys::window`: the global object if it is a window. Nothing is
/// claimed of the result.
#[verifier::external_body]
pub(crate) fn global_window() -> (r: Option<web_sys::Window>) {
    web_sys::window()
}

/// Calls `Window::local_storage`, the getter of `localStorage`. Nothing is
/// claimed of the result.
#[verifier::external_body]
pub(crate) fn local_storage(window: &web_sys::Window) -> (r: Result<
    Option<web_sys::Storage>,
    wasm_bindgen::JsValue,
>) {
    window.local_storage()
}

/// Calls `Window::session_storage`, the getter of `sessionStorage`. Nothing is
/// claimed of the result.
#[verifier::external_body]
pub(crate) fn session_storage(window: &web_sys::Window) -> (r: Result<
    Option<web_sys::Storage>,
    wasm_bindgen::JsValue,
>) {
    window.session_storage()
}

/// Calls `Storage::key`: the key at a position in the host's order, if there is
/// one. Nothing is claimed of the result.
#[verifier::external_body]
pub(crate) fn key_at(storage: &web_sys::Storage, index: u32) -> (r: Result<
    Option<String>,
    wasm_bindgen::JsValue,
>) {
    storage.key(index)
}

/// Calls `Storage::get_item`: the value stored under a key, if there is one.
/// Nothing is claimed of the result.
#[verifier::external_body]
pub(crate) fn get_item(storage: &web_sys::Storage, key: &str) -> (r: Result<
    Option<String>,
    wasm_bindgen::JsValue,
>) {
    storage.get_item(key)
}

/// Calls `Storage::set_item`, which stores a value under a key in the host.
/// Nothing is claimed of the result.
#[verifier::external_body]
pub(crate) fn set_item(storage: &web_sys::Storage, key: &str, value: &str) -> (r: Result<
    (),
    wasm_bindgen::JsValue,
>) {
    storage.set_item(key, value)
}

/// Calls `Storage::remove_item`, which deletes a key's entry in the host.
/// Nothing is claimed of the result.
#[verifier::external_body]
pub(crate) fn remove_item(storage: &web_sys::Storage, key: &str) -> (r: Result<
    (),
    wasm_bindgen::JsValue,
>) {
    storage.remove_item(key)
}

/// Calls `Storage::clear`, which deletes every entry in the host. Nothing is
/// claimed of the result.
#[verifier::external_body]
pub(crate) fn clear_all(storage: &web_sys::Storage) -> (r: Result<(), wasm_bindgen::JsValue>) {
    storage.clear()
}

/// Calls `Storage::length`, the getter of the number of entries. Nothing is
/// claimed of the result.
#[verifier::external_body]
pub(crate) fn length(storage: &web_sys::Storage) -> (r: Result<u32, wasm_bindgen::JsValue>) {
    storage.length()
}

} // verus!

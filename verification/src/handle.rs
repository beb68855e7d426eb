//! A handle on one storage object of the host.
//!
//! The handle holds no entries. Each operation asks the host again, so the
//! most a contract can say of a host call is which failures may come of it.

use vstd::prelude::*;
use wasm_bindgen::JsValue;
use crate::failure::{adapt, adapted, Area, Failure};
use crate::host;

verus! {

/// The host's index width: positions are 32-bit.
pub open spec fn fits_index(position: int) -> bool {
    0 <= position <= u32::MAX
}

/// The guard on a position: it is handed to the host as it is where it fits
/// 32 bits, and is an overflow where it does not. It is never cut short.
pub fn position_index(position: usize) -> (r: Result<u32, Failure>)
    ensures
        fits_index(position as int) ==> r == Ok::<u32, Failure>(position as u32),
        !fits_index(position as int) ==> r == Err::<u32, Failure>(Failure::IndexOverflow),
{
    if position > u32::MAX as usize {
        Err(Failure::IndexOverflow)
    } else {
        Ok(position as u32)
    }
}

/// What a lookup of the window makes of the global object.
pub open spec fn window_found(found: Option<web_sys::Window>) -> Result<web_sys::Window, Failure> {
    match found {
        Some(window) => Ok(window),
        None => Err(Failure::NoWindow),
    }
}

/// The window, or [`Failure::NoWindow`] where the global object is none.
pub fn require_window(found: Option<web_sys::Window>) -> (r: Result<web_sys::Window, Failure>)
    ensures
        r == window_found(found),
{
    match found {
        Some(window) => Ok(window),
        None => Err(Failure::NoWindow),
    }
}

/// Asks the host for its window.
pub fn window() -> (r: Result<web_sys::Window, Failure>)
    ensures
        r is Err ==> r->Err_0 is NoWindow,
{
    require_window(host::global_window())
}

/// A reference to one storage object of the host.
#[derive(Debug)]
pub struct StorageHandle {
    inner: web_sys::Storage,
}

impl StorageHandle {
    /// The host object behind this handle.
    pub closed spec fn object(self) -> web_sys::Storage {
        self.inner
    }

    /// What opening an area makes of the host's answer, once adapted: a
    /// missing object makes the area unavailable.
    pub open spec fn opened(
        area: Area,
        answer: Result<Option<web_sys::Storage>, JsValue>,
    ) -> Result<web_sys::Storage, Failure> {
        match adapted(answer) {
            Ok(Some(object)) => Ok(object),
            Ok(None) => Err(Failure::Unavailable(area)),
            Err(failure) => Err(failure),
        }
    }

    /// A failure that opening `area`, or an operation on it, can end in: the
    /// window is missing, the area is unavailable, or the host reported one.
    pub open spec fn area_failure(area: Area, failure: Failure) -> bool {
        failure is NoWindow || failure == Failure::Unavailable(area) || failure is Host
    }

    /// Wraps a storage object of the host.
    pub fn new(inner: web_sys::Storage) -> (r: StorageHandle)
        ensures
            r.object() == inner,
    {
        StorageHandle { inner }
    }

    /// Makes a handle of the host's answer to a request for the storage of
    /// `area`.
    pub fn from_answer(area: Area, answer: Result<Option<web_sys::Storage>, JsValue>) -> (r: Result<
        StorageHandle,
        Failure,
    >)
        ensures
            r is Ok <==> Self::opened(area, answer) is Ok,
            r is Ok ==> r->Ok_0.object() == Self::opened(area, answer)->Ok_0,
            r is Err ==> r->Err_0 == Self::opened(area, answer)->Err_0,
    {
        match adapt(answer) {
            Ok(Some(object)) => Ok(StorageHandle::new(object)),
            Ok(None) => Err(Failure::Unavailable(area)),
            Err(failure) => Err(failure),
        }
    }

    /// Opens the storage of `area` afresh: the window is looked up, then its
    /// storage object. Whatever the host answers, a failure is one of this
    /// area.
    pub fn open(area: Area) -> (r: Result<StorageHandle, Failure>)
        ensures
            r is Err ==> Self::area_failure(area, r->Err_0),
    {
        let window = match window() {
            Ok(window) => window,
            Err(failure) => { return Err(failure); },
        };
        let answer = match area {
            Area::Local => host::local_storage(&window),
            Area::Session => host::session_storage(&window),
        };
        StorageHandle::from_answer(area, answer)
    }

    /// The key at `position` in the host's order, or `None` past the end. A
    /// position beyond 32 bits is an overflow and never reaches the host; on
    /// any other the only failure is the host's.
    pub fn key(&self, position: usize) -> (r: Result<Option<String>, Failure>)
        ensures
            !fits_index(position as int) ==> r == Err::<Option<String>, Failure>(
                Failure::IndexOverflow,
            ),
            fits_index(position as int) && r is Err ==> r->Err_0 is Host,
    {
        match position_index(position) {
            Ok(index) => adapt(host::key_at(&self.inner, index)),
            Err(failure) => Err(failure),
        }
    }

    /// The value stored under `key`, or `None` where there is none. The only
    /// failure is the host's.
    pub fn get(&self, key: &str) -> (r: Result<Option<String>, Failure>)
        ensures
            r is Err ==> r->Err_0 is Host,
    {
        adapt(host::get_item(&self.inner, key))
    }

    /// Stores `value` under `key` and returns what the host held under `key`
    /// just before. Where that lookup fails nothing is stored. The only
    /// failure is the host's.
    pub fn set(&self, key: &str, value: &str) -> (r: Result<Option<String>, Failure>)
        ensures
            r is Err ==> r->Err_0 is Host,
    {
        let before = match self.get(key) {
            Ok(before) => before,
            Err(failure) => { return Err(failure); },
        };
        Self::after_change(before, host::set_item(&self.inner, key, value))
    }

    /// Deletes the entry of `key` and returns what the host held under `key`
    /// just before. Where that lookup fails nothing is deleted. The only
    /// failure is the host's.
    pub fn remove(&self, key: &str) -> (r: Result<Option<String>, Failure>)
        ensures
            r is Err ==> r->Err_0 is Host,
    {
        let before = match self.get(key) {
            Ok(before) => before,
            Err(failure) => { return Err(failure); },
        };
        Self::after_change(before, host::remove_item(&self.inner, key))
    }

    /// What `set` and `remove` return once the host has answered the change:
    /// the value found before it, or the adapted failure.
    pub open spec fn changed(before: Option<String>, answer: Result<(), JsValue>) -> Result<
        Option<String>,
        Failure,
    > {
        match adapted(answer) {
            Ok(_) => Ok(before),
            Err(failure) => Err(failure),
        }
    }

    /// The result of a change whose earlier lookup gave `before` and to which
    /// the host answered `answer`.
    pub fn after_change(before: Option<String>, answer: Result<(), JsValue>) -> (r: Result<
        Option<String>,
        Failure,
    >)
        ensures
            r == Self::changed(before, answer),
    {
        match adapt(answer) {
            Ok(_) => Ok(before),
            Err(failure) => Err(failure),
        }
    }

    /// Deletes every entry. The only failure is the host's.
    pub fn clear(&self) -> (r: Result<(), Failure>)
        ensures
            r is Err ==> r->Err_0 is Host,
    {
        adapt(host::clear_all(&self.inner))
    }

    /// What `count` makes of the host's length, once adapted.
    pub open spec fn counted(answer: Result<u32, JsValue>) -> Result<usize, Failure> {
        match adapted(answer) {
            Ok(length) => Ok(length as usize),
            Err(failure) => Err(failure),
        }
    }

    /// The number of entries, from the host's answer to a request for its
    /// length: the same number, widened.
    pub fn from_length(answer: Result<u32, JsValue>) -> (r: Result<usize, Failure>)
        ensures
            r == Self::counted(answer),
            r is Ok ==> r->Ok_0 as int == answer->Ok_0 as int,
    {
        match adapt(answer) {
            Ok(length) => Ok(length as usize),
            Err(failure) => Err(failure),
        }
    }

    /// The number of entries that the host holds. The only failure is the
    /// host's, and the number fits 32 bits.
    pub fn count(&self) -> (r: Result<usize, Failure>)
        ensures
            r is Err ==> r->Err_0 is Host,
            r is Ok ==> r->Ok_0 <= u32::MAX,
    {
        Self::from_length(host::length(&self.inner))
    }
}

} // verus!

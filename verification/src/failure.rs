//! The ways an operation can fail, and the single adapter through which every
//! fallible host call passes.

use vstd::prelude::*;
use wasm_bindgen::JsValue;

verus! {

/// One of the two storage areas of a browsing context.
#[derive(Debug, Clone, Copy)]
pub enum Area {
    Local,
    Session,
}

/// Why an operation was given up. No failure is recovered from inside the
/// library; each one ends the call in which it arose.
#[derive(Debug)]
pub enum Failure {
    /// The global object is not a window.
    NoWindow,
    /// The window has no storage of the named area.
    Unavailable(Area),
    /// The host reported a failure; its value is carried unchanged.
    Host(JsValue),
    /// A position does not fit the host's 32-bit index.
    IndexOverflow,
    /// A key found at a position had no value a moment later.
    Vanished,
}

/// What the adapter makes of a host outcome.
pub open spec fn adapted<T>(outcome: Result<T, JsValue>) -> Result<T, Failure> {
    match outcome {
        Ok(value) => Ok(value),
        Err(thrown) => Err(Failure::Host(thrown)),
    }
}

/// The failure adapter: a success passes through, and a value thrown by the
/// host becomes [`Failure::Host`] around that same value.
pub fn adapt<T>(outcome: Result<T, JsValue>) -> (r: Result<T, Failure>)
    ensures
        r == adapted(outcome),
{
    match outcome {
        Ok(value) => Ok(value),
        Err(thrown) => Err(Failure::Host(thrown)),
    }
}

impl Failure {
    /// The text that describes this failure, where the library words it. A host
    /// failure has none: the host's own value is the report.
    pub open spec fn text(self) -> Option<Seq<char>> {
        match self {
            Failure::NoWindow => Some(
                "`window` global not available - are we on a web platform?"@,
            ),
            Failure::Unavailable(Area::Local) => Some("local storage not available"@),
            Failure::Unavailable(Area::Session) => Some("session storage not available"@),
            Failure::Host(_) => None,
            Failure::IndexOverflow => Some("u32 overflow on position"@),
            Failure::Vanished => Some("key without a value during iteration"@),
        }
    }

    /// The message to abort with, or `None` for a host failure, whose own
    /// value is to be thrown again.
    pub fn message(&self) -> (r: Option<String>)
        ensures
            r is Some <==> self.text() is Some,
            r is Some ==> r->Some_0@ == self.text()->Some_0,
    {
        match self {
            Failure::NoWindow => Some(
                "`window` global not available - are we on a web platform?".to_owned(),
            ),
            Failure::Unavailable(Area::Local) => Some("local storage not available".to_owned()),
            Failure::Unavailable(Area::Session) => Some(
                "session storage not available".to_owned(),
            ),
            Failure::Host(_) => None,
            Failure::IndexOverflow => Some("u32 overflow on position".to_owned()),
            Failure::Vanished => Some("key without a value during iteration".to_owned()),
        }
    }
}

} // verus!

//! Access to the session storage.

use vstd::prelude::*;
use crate::cursor::{Progress, StorageIntoIter};
use crate::failure::{Area, Failure};
use crate::handle::{fits_index, StorageHandle};

verus! {

/// The key of the entry at `position` in the storage. Prefer `get`.
pub fn key(position: usize) -> (r: Result<Option<String>, Failure>)
    ensures
        !fits_index(position as int) ==> r is Err,
        r is Err ==> StorageHandle::area_failure(Area::Session, r->Err_0) || (r->Err_0
            is IndexOverflow && !fits_index(position as int)),
{
    Area::Session.key(position)
}

/// The value of a record in the storage, if present.
pub fn get(key: &str) -> (r: Result<Option<String>, Failure>)
    ensures
        r is Err ==> StorageHandle::area_failure(Area::Session, r->Err_0),
{
    Area::Session.get(key)
}

/// Sets a record in the storage and returns the old value under the same key,
/// if present.
pub fn set(key: &str, value: &str) -> (r: Result<Option<String>, Failure>)
    ensures
        r is Err ==> StorageHandle::area_failure(Area::Session, r->Err_0),
{
    Area::Session.set(key, value)
}

/// Removes a record from the storage and returns its value, if present.
pub fn remove(key: &str) -> (r: Result<Option<String>, Failure>)
    ensures
        r is Err ==> StorageHandle::area_failure(Area::Session, r->Err_0),
{
    Area::Session.remove(key)
}

/// Removes all records from the storage.
pub fn clear() -> (r: Result<(), Failure>)
    ensures
        r is Err ==> StorageHandle::area_failure(Area::Session, r->Err_0),
{
    Area::Session.clear()
}

/// A walk over the records from the start, in the host's order. Editing the
/// storage during the walk invalidates it.
pub fn iter() -> (r: Result<StorageIntoIter, Failure>)
    ensures
        r is Err ==> StorageHandle::area_failure(Area::Session, r->Err_0),
        r is Ok ==> r->Ok_0.progress() == (Progress { position: 0, ended: false }),
{
    Area::Session.iter()
}

/// The number of records in the storage.
pub fn count() -> (r: Result<usize, Failure>)
    ensures
        r is Err ==> StorageHandle::area_failure(Area::Session, r->Err_0),
        r is Ok ==> r->Ok_0 <= u32::MAX,
{
    Area::Session.count()
}

} // verus!

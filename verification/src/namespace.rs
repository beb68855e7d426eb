//! The operations of a storage area, each on a handle opened for that one call.
//!
//! No handle outlives its call, so an area that becomes unavailable is noticed
//! at the next operation. A failure is therefore one of opening the area or one
//! that the host reported; only `key` can also overflow.

use vstd::prelude::*;
use crate::cursor::{Progress, StorageIntoIter};
use crate::failure::{Area, Failure};
use crate::handle::{fits_index, StorageHandle};

verus! {

impl Area {
    /// The key at `position` in the host's order, or `None` past the end. A
    /// position beyond 32 bits always fails.
    pub fn key(self, position: usize) -> (r: Result<Option<String>, Failure>)
        ensures
            !fits_index(position as int) ==> r is Err,
            r is Err ==> StorageHandle::area_failure(self, r->Err_0) || (r->Err_0
                is IndexOverflow && !fits_index(position as int)),
    {
        match StorageHandle::open(self) {
            Ok(handle) => handle.key(position),
            Err(failure) => Err(failure),
        }
    }

    /// The value stored under `key`, or `None` where there is none.
    pub fn get(self, key: &str) -> (r: Result<Option<String>, Failure>)
        ensures
            r is Err ==> StorageHandle::area_failure(self, r->Err_0),
    {
        match StorageHandle::open(self) {
            Ok(handle) => handle.get(key),
            Err(failure) => Err(failure),
        }
    }

    /// Stores `value` under `key` and returns the value held there before.
    pub fn set(self, key: &str, value: &str) -> (r: Result<Option<String>, Failure>)
        ensures
            r is Err ==> StorageHandle::area_failure(self, r->Err_0),
    {
        match StorageHandle::open(self) {
            Ok(handle) => handle.set(key, value),
            Err(failure) => Err(failure),
        }
    }

    /// Deletes the entry of `key` and returns the value held there before.
    pub fn remove(self, key: &str) -> (r: Result<Option<String>, Failure>)
        ensures
            r is Err ==> StorageHandle::area_failure(self, r->Err_0),
    {
        match StorageHandle::open(self) {
            Ok(handle) => handle.remove(key),
            Err(failure) => Err(failure),
        }
    }

    /// Deletes every entry.
    pub fn clear(self) -> (r: Result<(), Failure>)
        ensures
            r is Err ==> StorageHandle::area_failure(self, r->Err_0),
    {
        match StorageHandle::open(self) {
            Ok(handle) => handle.clear(),
            Err(failure) => Err(failure),
        }
    }

    /// A walk over the entries from the start, in the host's order. Changing
    /// the storage during the walk may make it skip, repeat or end early.
    pub fn iter(self) -> (r: Result<StorageIntoIter, Failure>)
        ensures
            r is Err ==> StorageHandle::area_failure(self, r->Err_0),
            r is Ok ==> r->Ok_0.progress() == (Progress {
                position: 0,
                ended: false,
            }),
    {
        match StorageHandle::open(self) {
            Ok(handle) => Ok(handle.into_iter()),
            Err(failure) => Err(failure),
        }
    }

    /// The number of entries.
    pub fn count(self) -> (r: Result<usize, Failure>)
        ensures
            r is Err ==> StorageHandle::area_failure(self, r->Err_0),
            r is Ok ==> r->Ok_0 <= u32::MAX,
    {
        match StorageHandle::open(self) {
            Ok(handle) => handle.count(),
            Err(failure) => Err(failure),
        }
    }
}

} // verus!

//! A forward-only walk over a storage's entries, in the host's order.
//!
//! The walk keeps a position and nothing else: no snapshot is taken, so what it
//! yields follows whatever the host holds at each step. It ends the first time
//! the host has no key at the position, and stays ended.

use vstd::prelude::*;
use crate::failure::Failure;
use crate::handle::{fits_index, StorageHandle};

verus! {

/// What a walk remembers between two steps.
pub struct Progress {
    /// The zero-based position of the next lookup.
    pub position: nat,
    /// Whether the host has once had no key at the position.
    pub ended: bool,
}

/// What one step of a walk looked up: the key at the position and, where there
/// was a key, the value under it.
pub struct Lookup {
    pub key: Option<String>,
    pub value: Option<String>,
}

impl Progress {
    /// The state that a step leaves behind. An ended walk stays as it is. A
    /// missing key ends it. A pair moves it on by one. A failure (a position
    /// beyond 32 bits, a key without a value) leaves it where it was.
    pub open spec fn after(self, seen: Lookup) -> Progress {
        if self.ended || !fits_index(self.position as int) {
            self
        } else {
            match (seen.key, seen.value) {
                (None, _) => Progress { position: self.position, ended: true },
                (Some(_), None) => self,
                (Some(_), Some(_)) => Progress { position: self.position + 1, ended: false },
            }
        }
    }

    /// What a step yields. An ended walk yields nothing, whatever was seen. A
    /// position beyond 32 bits is an overflow. Otherwise a missing key yields
    /// nothing, a key with its value yields that pair, and a key without a
    /// value is a failure rather than an entry passed over.
    pub open spec fn yielded(self, seen: Lookup) -> Result<Option<(String, String)>, Failure> {
        if self.ended {
            Ok(None)
        } else if !fits_index(self.position as int) {
            Err(Failure::IndexOverflow)
        } else {
            match (seen.key, seen.value) {
                (None, _) => Ok(None),
                (Some(_), None) => Err(Failure::Vanished),
                (Some(key), Some(value)) => Ok(Some((key, value))),
            }
        }
    }

    /// Whether going from `self` to `after` with the result `r` is one step of
    /// a walk: either the step that some lookup settles, or a failure of the
    /// host, which can only meet a walk that still asks and which leaves it
    /// where it was.
    pub open spec fn steps_to(
        self,
        r: Result<Option<(String, String)>, Failure>,
        after: Progress,
    ) -> bool {
        ||| (r is Err && r->Err_0 is Host && after == self && !self.ended && fits_index(
            self.position as int,
        ))
        ||| exists|seen: Lookup| #[trigger] self.yielded(seen) == r && self.after(seen) == after
    }
}

/// Whether `results` are what a walk gave step by step while it went through
/// `states`, the first of them before the first step and each next one after
/// it.
pub open spec fn is_run(
    states: Seq<Progress>,
    results: Seq<Result<Option<(String, String)>, Failure>>,
) -> bool {
    &&& states.len() == results.len() + 1
    &&& forall|i: int|
        0 <= i < results.len() ==> states[i].steps_to(#[trigger] results[i], states[i + 1])
}

/// A step that yields nothing leaves the walk ended.
pub proof fn nothing_ends_the_walk(before: Progress, after: Progress)
    requires
        before.steps_to(Ok(None), after),
    ensures
        after.ended,
        after.position == before.position,
{
}

/// A step of an ended walk yields nothing and changes nothing.
pub proof fn ended_walk_yields_nothing(
    before: Progress,
    r: Result<Option<(String, String)>, Failure>,
    after: Progress,
)
    requires
        before.ended,
        before.steps_to(r, after),
    ensures
        r == Ok::<Option<(String, String)>, Failure>(None),
        after == before,
{
}

/// Exhaustion is permanent: once a step of a walk has yielded nothing, every
/// later step of that walk yields nothing too, whatever the host holds by then.
pub proof fn exhaustion_is_permanent(
    states: Seq<Progress>,
    results: Seq<Result<Option<(String, String)>, Failure>>,
    first: int,
    later: int,
)
    requires
        is_run(states, results),
        0 <= first <= later < results.len(),
        results[first] == Ok::<Option<(String, String)>, Failure>(None),
    ensures
        results[later] == Ok::<Option<(String, String)>, Failure>(None),
        states[later + 1].ended,
        states[later + 1] == states[first + 1],
    decreases later - first,
{
    if later == first {
        nothing_ends_the_walk(states[first], states[first + 1]);
    } else {
        exhaustion_is_permanent(states, results, first, later - 1);
        ended_walk_yields_nothing(states[later], results[later], states[later + 1]);
    }
}

/// What a storage that holds `records`, in its own order, answers a walk at
/// `position`: the record there, or no key past the end.
pub open spec fn lookup_at(records: Seq<(String, String)>, position: nat) -> Lookup {
    if position < records.len() {
        Lookup { key: Some(records[position as int].0), value: Some(records[position as int].1) }
    } else {
        Lookup { key: None, value: None }
    }
}

/// Where a walk from the start stands after `steps` steps over a storage that
/// holds `records` throughout.
pub open spec fn walked(records: Seq<(String, String)>, steps: nat) -> Progress
    decreases steps,
{
    if steps == 0 {
        Progress { position: 0, ended: false }
    } else {
        let before = walked(records, (steps - 1) as nat);
        before.after(lookup_at(records, before.position))
    }
}

/// Over a storage that nothing changes meanwhile, a walk from the start yields
/// every record once, in the host's order, and then nothing: no record is
/// passed over, repeated or moved.
pub proof fn quiet_walk_yields_in_order(records: Seq<(String, String)>, steps: nat)
    requires
        records.len() <= u32::MAX,
    ensures
        steps <= records.len() ==> walked(records, steps) == (Progress {
            position: steps,
            ended: false,
        }),
        steps > records.len() ==> walked(records, steps) == (Progress {
            position: records.len(),
            ended: true,
        }),
        steps < records.len() ==> walked(records, steps).yielded(lookup_at(records, steps)) == Ok::<
            Option<(String, String)>,
            Failure,
        >(Some(records[steps as int])),
        steps >= records.len() ==> walked(records, steps).yielded(
            lookup_at(records, walked(records, steps).position),
        ) == Ok::<Option<(String, String)>, Failure>(None),
    decreases steps,
{
    if steps > 0 {
        quiet_walk_yields_in_order(records, (steps - 1) as nat);
    }
}

impl StorageHandle {
    /// Turns the handle into a walk over its entries, from the start.
    pub fn into_iter(self) -> (r: StorageIntoIter)
        ensures
            r.progress() == (Progress { position: 0, ended: false }),
            r.handle() == self,
    {
        StorageIntoIter::new(self)
    }
}

/// A walk over the entries of one storage.
pub struct StorageIntoIter {
    position: u64,
    ended: bool,
    inner: StorageHandle,
}

impl StorageIntoIter {
    /// What the walk remembers.
    pub closed spec fn progress(self) -> Progress {
        Progress { position: self.position as nat, ended: self.ended }
    }

    /// The handle that the walk asks.
    pub closed spec fn handle(self) -> StorageHandle {
        self.inner
    }

    /// A walk at the start of `inner`.
    pub fn new(inner: StorageHandle) -> (r: StorageIntoIter)
        ensures
            r.progress() == (Progress { position: 0, ended: false }),
            r.handle() == inner,
    {
        StorageIntoIter { position: 0, ended: false, inner }
    }

    /// The position of the next lookup.
    pub fn position(&self) -> (r: u64)
        ensures
            r as nat == self.progress().position,
    {
        self.position
    }

    /// Whether the walk has ended.
    pub fn is_ended(&self) -> (r: bool)
        ensures
            r == self.progress().ended,
    {
        self.ended
    }

    /// Takes one step, given what the host held at the position: the walk moves
    /// as [`Progress::after`] says and yields what [`Progress::yielded`] says.
    pub fn settle(&mut self, key: Option<String>, value: Option<String>) -> (r: Result<
        Option<(String, String)>,
        Failure,
    >)
        ensures
            final(self).handle() == old(self).handle(),
            final(self).progress() == old(self).progress().after(Lookup { key, value }),
            r == old(self).progress().yielded(Lookup { key, value }),
    {
        if self.ended {
            return Ok(None);
        }
        if self.position > u32::MAX as u64 {
            return Err(Failure::IndexOverflow);
        }
        match key {
            None => {
                self.ended = true;
                Ok(None)
            },
            Some(key) => match value {
                None => Err(Failure::Vanished),
                Some(value) => {
                    self.position = self.position + 1;
                    Ok(Some((key, value)))
                },
            },
        }
    }

    /// Takes one step against the host: looks up the key at the position, then
    /// the value under that key, and settles on what came back. An ended walk
    /// yields nothing and does not ask the host; a position beyond 32 bits
    /// overflows and does not ask it either. Whatever the host answers, the
    /// step is one that [`Progress::steps_to`] admits: what some lookup
    /// settles, or a host failure that leaves the walk in place.
    pub fn next(&mut self) -> (r: Result<Option<(String, String)>, Failure>)
        ensures
            final(self).handle() == old(self).handle(),
            old(self).progress().steps_to(r, final(self).progress()),
            old(self).progress().ended ==> r == Ok::<Option<(String, String)>, Failure>(None),
            !old(self).progress().ended && !fits_index(old(self).progress().position as int)
                ==> r == Err::<Option<(String, String)>, Failure>(Failure::IndexOverflow),
            r == Ok::<Option<(String, String)>, Failure>(None) ==> final(self).progress()
                == (Progress { position: old(self).progress().position, ended: true }),
            r is Ok && r->Ok_0 is Some ==> final(self).progress() == (Progress {
                position: old(self).progress().position + 1,
                ended: false,
            }),
            r is Err ==> final(self).progress() == old(self).progress(),
    {
        if self.ended || self.position > u32::MAX as u64 {
            return self.settle(None, None);
        }
        let key = match self.inner.key(self.position as usize) {
            Ok(key) => key,
            Err(failure) => { return Err(failure); },
        };
        match key {
            None => self.settle(None, None),
            Some(key) => {
                let value = match self.inner.get(key.as_str()) {
                    Ok(value) => value,
                    Err(failure) => { return Err(failure); },
                };
                self.settle(Some(key), value)
            },
        }
    }
}

} // verus!

//! Closing a destination's batch before it is written.
use vstd::prelude::*;

use crate::event::{is_sync_spec, sync_spec, Event};

verus! {

/// What is written for a batch: nothing when it is empty; else the batch,
/// with one synchronization marker appended unless it already ends in one.
pub open spec fn flushed(batch: Seq<Event>) -> Option<Seq<Event>> {
    if batch.len() == 0 {
        None
    } else if is_sync_spec(batch.last()) {
        Some(batch)
    } else {
        Some(batch.push(sync_spec()))
    }
}

/// Whether `r` is the vector form of the flushed batch `f`.
pub open spec fn flushed_as(r: Option<Vec<Event>>, f: Option<Seq<Event>>) -> bool {
    match r {
        None => f is None,
        Some(v) => f == Some(v@),
    }
}

/// Closes `batch` for writing: `None` means no write for this destination.
pub fn finish_batch(batch: Vec<Event>) -> (r: Option<Vec<Event>>)
    ensures
        flushed_as(r, flushed(batch@)),
{
    let n = batch.len();
    if n == 0 {
        None
    } else if batch[n - 1].is_sync() {
        Some(batch)
    } else {
        let mut batch = batch;
        batch.push(Event::sync());
        Some(batch)
    }
}

} // verus!

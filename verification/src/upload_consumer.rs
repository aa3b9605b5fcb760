use vstd::prelude::*;
use crate::codec::to_json_array;
use crate::error::DTError;
use crate::value::Object;

verus! {

broadcast use {vstd::std_specs::vec::group_vec_axioms, vstd::seq::group_seq_axioms};

/// The batched asynchronous network uploader. It holds the FIFO cache
/// of pending events and the flush-task throttle; the worker pool, the
/// clock and the network live in the shell, which asks this core what
/// to do and performs it.
pub struct AsyncUploadConsumer {
    pub cache: Vec<Object>,
    pub pool_size: usize,
    pub flushing_count: usize,
    pub max_batch_size: usize,
    pub taken: Ghost<int>,
}

/// How many events the consumer has accepted in total: those already
/// taken into batches plus those still cached - no event is lost or
/// duplicated between `add_to_cache` and `take_batch`.
pub open spec fn spec_events_accounted(c: AsyncUploadConsumer) -> int {
    c.taken@ + c.cache@.len()
}

impl AsyncUploadConsumer {
    pub fn new(num_threads: usize, max_batch_size: usize) -> (r: AsyncUploadConsumer)
        requires
            num_threads >= 1,
        ensures
            r.cache@.len() == 0,
            r.pool_size == 1,
            r.flushing_count == 0,
            r.max_batch_size == max_batch_size,
            r.taken@ == 0,
    {
        let size: usize = if 1 < num_threads {
            1
        } else {
            num_threads
        };
        AsyncUploadConsumer {
            cache: Vec::new(),
            pool_size: size,
            flushing_count: 0,
            max_batch_size,
            taken: Ghost(0int),
        }
    }

    /// Caches one event and decides whether to schedule a flush task:
    /// only while fewer flush tasks are pending than the pool has
    /// threads, so duplicate flush work cannot pile up unboundedly.
    pub fn add_to_cache(&mut self, event: Object) -> (schedule: bool)
        ensures
            final(self).cache@ == old(self).cache@.push(event),
            spec_events_accounted(*final(self)) == spec_events_accounted(*old(self)) + 1,
            schedule == (old(self).flushing_count < old(self).pool_size),
            schedule ==> final(self).flushing_count == old(self).flushing_count + 1,
            !schedule ==> final(self).flushing_count == old(self).flushing_count,
            final(self).pool_size == old(self).pool_size,
            final(self).max_batch_size == old(self).max_batch_size,
    {
        self.cache.push(event);
        if self.flushing_count < self.pool_size {
            self.flushing_count = self.flushing_count + 1;
            true
        } else {
            false
        }
    }

    /// What a scheduled flush task does first: it takes up to
    /// `max_batch_size` events from the front of the cache - oldest
    /// first, their order preserved - and releases its throttle slot.
    pub fn take_batch(&mut self) -> (batch: Vec<Object>)
        ensures
            batch@.len() == (if old(self).cache@.len() < old(self).max_batch_size {
                old(self).cache@.len() as int
            } else {
                old(self).max_batch_size as int
            }),
            batch@ == old(self).cache@.take(batch@.len() as int),
            final(self).cache@ == old(self).cache@.skip(batch@.len() as int),
            spec_events_accounted(*final(self)) == spec_events_accounted(*old(self)),
            final(self).flushing_count == (if old(self).flushing_count > 0 {
                (old(self).flushing_count - 1) as usize
            } else {
                0usize
            }),
            final(self).pool_size == old(self).pool_size,
            final(self).max_batch_size == old(self).max_batch_size,
    {
        if self.flushing_count > 0 {
            self.flushing_count = self.flushing_count - 1;
        }
        let size: usize = if self.cache.len() < self.max_batch_size {
            self.cache.len()
        } else {
            self.max_batch_size
        };
        let ghost count_now = self.flushing_count;
        let mut batch: Vec<Object> = Vec::new();
        let ghost c0 = self.cache@;
        let mut i: usize = 0;
        while i < size
            invariant
                0 <= i <= size,
                size <= c0.len(),
                batch@ == c0.take(i as int),
                self.cache@ == c0.skip(i as int),
                self.flushing_count == count_now,
                self.pool_size == old(self).pool_size,
                self.max_batch_size == old(self).max_batch_size,
                self.taken@ == old(self).taken@ + i,
            decreases size - i,
        {
            let ev = self.cache.remove(0);
            batch.push(ev);
            proof {
                self.taken@ = self.taken@ + 1;
                assert(batch@ =~= c0.take(i + 1));
                assert(self.cache@ =~= c0.skip(i + 1));
            }
            i = i + 1;
        }
        batch
    }

    /// The body of one upload: the batch as a JSON array, oldest
    /// record first.
    pub fn batch_body(batch: &Vec<Object>) -> (r: String)
        ensures
            r@ == crate::codec::spec_ser(
                crate::value::SpecValue::Arr(
                    Seq::new(batch@.len(), |i: int| crate::value::SpecValue::Obj(batch@[i]@)),
                ),
            ),
    {
        to_json_array(batch)
    }
}

/// How an upload response is judged: success needs a 2xx status and a
/// response body that parsed as a JSON document; a transport-level
/// failure or non-2xx status is a network error, an unparseable body
/// from a successful status is a remote error.
pub fn interpret_upload_response(status: u16, body_parsed: bool) -> (r: Result<(), DTError>)
    ensures
        (r is Ok) == (200 <= status < 300 && body_parsed),
        r matches Err(er) ==> (if 200 <= status < 300 {
            er is RemoteError
        } else {
            er is NetworkError
        }),
{
    if !(200 <= status && status < 300) {
        return Err(DTError::NetworkError(String::from_str("upload failed with an error status")));
    }
    if !body_parsed {
        return Err(DTError::RemoteError(String::from_str("failed to parse network response")));
    }
    Ok(())
}

} // verus!

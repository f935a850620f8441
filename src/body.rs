//! The backend's response body, read chunk by chunk under a size limit.

use vstd::prelude::*;

use crate::error::DispatchError;

verus! {

broadcast use Seq::lemma_flatten_push;

/// The body that `chunks` make together, or `None` where it is longer than
/// `limit` bytes.
pub open spec fn bounded_body(chunks: Seq<Seq<u8>>, limit: nat) -> Option<Seq<u8>> {
    if chunks.flatten().len() <= limit {
        Some(chunks.flatten())
    } else {
        None
    }
}

/// A response body being received: the bytes so far, kept only while they
/// stay within the limit. Once the limit is passed nothing is kept.
pub struct BoundedBody {
    bytes: Vec<u8>,
    limit: usize,
    overflowed: bool,
    received: Ghost<Seq<Seq<u8>>>,
}

impl BoundedBody {
    /// The chunks handed in so far, in order.
    pub closed spec fn received(&self) -> Seq<Seq<u8>> {
        self.received@
    }

    /// The most bytes the body may hold.
    pub closed spec fn limit(&self) -> nat {
        self.limit as nat
    }

    pub closed spec fn wf(&self) -> bool {
        if self.overflowed {
            &&& self.received@.flatten().len() > self.limit
            &&& self.bytes@.len() == 0
        } else {
            &&& self.bytes@ == self.received@.flatten()
            &&& self.bytes@.len() <= self.limit
        }
    }

    /// An empty body that may grow to `limit` bytes.
    pub fn new(limit: usize) -> (r: BoundedBody)
        ensures
            r.wf(),
            r.limit() == limit,
            r.received() == Seq::<Seq<u8>>::empty(),
    {
        let r = BoundedBody { bytes: Vec::new(), limit, overflowed: false, received: Ghost(Seq::empty()) };
        assert(Seq::<Seq<u8>>::empty().flatten() =~= Seq::<u8>::empty());
        r
    }

    /// Takes the next chunk. Fails with `PayloadTooLarge` exactly where the
    /// chunks so far, this one included, pass the limit; the bytes received
    /// are then dropped.
    pub fn push_chunk(&mut self, chunk: &[u8]) -> (r: Result<(), DispatchError>)
        requires
            old(self).wf(),
        ensures
            final(self).wf(),
            final(self).limit() == old(self).limit(),
            final(self).received() == old(self).received().push(chunk@),
            r is Ok <==> bounded_body(final(self).received(), final(self).limit()) is Some,
            r is Err ==> r == Err::<(), DispatchError>(
                DispatchError::PayloadTooLarge { limit: old(self).limit() as usize },
            ),
    {
        let ghost before = self.received@;
        self.received = Ghost(before.push(chunk@));
        assert(self.received@.flatten() == before.flatten() + chunk@);
        if self.overflowed {
            return Err(DispatchError::PayloadTooLarge { limit: self.limit });
        }
        if chunk.len() > self.limit - self.bytes.len() {
            self.overflowed = true;
            self.bytes = Vec::new();
            return Err(DispatchError::PayloadTooLarge { limit: self.limit });
        }
        let start = self.bytes.len();
        let mut i: usize = 0;
        while i < chunk.len()
            invariant
                i <= chunk@.len(),
                start == before.flatten().len(),
                self.bytes@ == before.flatten() + chunk@.take(i as int),
                self.limit == old(self).limit,
                !self.overflowed,
                self.received@ == before.push(chunk@),
                start + chunk@.len() <= self.limit,
            decreases chunk@.len() - i,
        {
            self.bytes.push(chunk[i]);
            assert(chunk@.take(i + 1) == chunk@.take(i as int).push(chunk@[i as int]));
            i = i + 1;
        }
        assert(chunk@.take(i as int) == chunk@);
        Ok(())
    }

    /// The whole body, or `PayloadTooLarge` where it passed the limit.
    pub fn finish(self) -> (r: Result<Vec<u8>, DispatchError>)
        requires
            self.wf(),
        ensures
            match bounded_body(self.received(), self.limit()) {
                Some(b) => r is Ok && r->Ok_0@ == b,
                None => r == Err::<Vec<u8>, DispatchError>(
                    DispatchError::PayloadTooLarge { limit: self.limit() as usize },
                ),
            },
    {
        if self.overflowed {
            Err(DispatchError::PayloadTooLarge { limit: self.limit })
        } else {
            Ok(self.bytes)
        }
    }
}

} // verus!

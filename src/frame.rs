//! The frame store: the single most recently captured encoded frame.
use vstd::prelude::*;

verus! {

/// Holds the latest encoded frame; each write replaces the previous one whole.
///
/// Shared between threads behind a lock that is held only for `write` or `read`.
pub struct FrameStore {
    bytes: Vec<u8>,
}

impl View for FrameStore {
    type V = Seq<u8>;

    closed spec fn view(&self) -> Seq<u8> {
        self.bytes@
    }
}

impl FrameStore {
    /// An empty store: no frame has been captured yet.
    pub fn new() -> (r: FrameStore)
        ensures
            r@ == Seq::<u8>::empty(),
    {
        FrameStore { bytes: Vec::new() }
    }

    /// Replaces the stored frame with `frame`.
    pub fn write(&mut self, frame: Vec<u8>)
        ensures
            final(self)@ == frame@,
    {
        self.bytes = frame;
    }

    /// A copy of the stored frame, empty before the first capture.
    pub fn read(&self) -> (r: Vec<u8>)
        ensures
            r@ == self@,
    {
        let r = self.bytes.clone();
        assert(r@ =~= self.bytes@);
        r
    }

    /// Whether no frame has been captured yet.
    pub fn is_empty(&self) -> (r: bool)
        ensures
            r == (self@.len() == 0),
    {
        self.bytes.len() == 0
    }
}

} // verus!

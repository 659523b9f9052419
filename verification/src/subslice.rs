//! A byte buffer with a movable active window, the shape in which command
//! bytes are laid out before they are handed to the bus.

use vstd::prelude::*;

verus! {

/// A buffer of bytes of which only the window `[start, end)` is active.
/// Indices used by `get` and `set` are relative to the start of the window.
pub struct SubSliceMut {
    data: Vec<u8>,
    start: usize,
    end: usize,
}

impl SubSliceMut {
    /// The whole underlying buffer.
    pub closed spec fn data(&self) -> Seq<u8> {
        self.data@
    }

    /// Offset of the active window in the underlying buffer.
    pub closed spec fn start(&self) -> int {
        self.start as int
    }

    /// End (exclusive) of the active window in the underlying buffer.
    pub closed spec fn end(&self) -> int {
        self.end as int
    }

    /// The window lies inside the buffer.
    pub open spec fn wf(&self) -> bool {
        0 <= self.start() <= self.end() <= self.data().len()
    }

    /// The bytes of the active window.
    pub open spec fn window(&self) -> Seq<u8> {
        self.data().subrange(self.start(), self.end())
    }

    /// Length of the active window.
    pub open spec fn spec_len(&self) -> int {
        self.end() - self.start()
    }

    /// Wraps a whole buffer; the window covers all of it.
    pub fn new(data: Vec<u8>) -> (s: Self)
        ensures
            s.wf(),
            s.data() == data@,
            s.start() == 0,
            s.end() == data@.len(),
    {
        let end = data.len();
        SubSliceMut { data, start: 0, end }
    }

    /// Number of bytes in the active window.
    pub fn len(&self) -> (n: usize)
        requires
            self.wf(),
        ensures
            n == self.spec_len(),
    {
        self.end - self.start
    }

    /// Reads the byte at `index` within the window.
    pub fn get(&self, index: usize) -> (b: u8)
        requires
            self.wf(),
            index < self.spec_len(),
        ensures
            b == self.data()[self.start() + index],
    {
        self.data[self.start + index]
    }

    /// Writes the byte at `index` within the window.
    pub fn set(&mut self, index: usize, value: u8)
        requires
            old(self).wf(),
            index < old(self).spec_len(),
        ensures
            final(self).wf(),
            final(self).data() == old(self).data().update(old(self).start() + index, value),
            final(self).start() == old(self).start(),
            final(self).end() == old(self).end(),
    {
        let i = self.start + index;
        self.data.set(i, value);
    }

    /// Moves the start of the window forward by `from` bytes.
    pub fn slice_from(&mut self, from: usize)
        requires
            old(self).wf(),
            from <= old(self).spec_len(),
        ensures
            final(self).wf(),
            final(self).data() == old(self).data(),
            final(self).start() == old(self).start() + from,
            final(self).end() == old(self).end(),
    {
        self.start = self.start + from;
    }

    /// Makes the window cover the whole buffer again.
    pub fn reset(&mut self)
        requires
            old(self).wf(),
        ensures
            final(self).wf(),
            final(self).data() == old(self).data(),
            final(self).start() == 0,
            final(self).end() == old(self).data().len(),
    {
        self.start = 0;
        self.end = self.data.len();
    }

    /// Gives back the whole underlying buffer.
    pub fn take(self) -> (data: Vec<u8>)
        ensures
            data@ == self.data(),
    {
        self.data
    }
}

} // verus!

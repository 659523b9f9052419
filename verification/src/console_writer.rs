//! A fixed-size buffer that text is formatted into before it is printed.

use vstd::prelude::*;
use crate::format::text;
use crate::command::splice;

verus! {

/// The error of a formatting operation.
#[verifier::external_type_specification]
#[verifier::external_body]
pub struct ExFmtError(core::fmt::Error);

/// Number of bytes a [`ConsoleWriter`] holds.
pub const CONSOLE_WRITER_SIZE: usize = 500;

/// Text written so far, in a buffer of 500 bytes.
pub struct ConsoleWriter {
    buf: [u8; 500],
    size: usize,
}

impl View for ConsoleWriter {
    type V = Seq<u8>;

    /// The bytes written so far.
    closed spec fn view(&self) -> Seq<u8> {
        self.buf@.subrange(0, self.size as int)
    }
}

impl ConsoleWriter {
    /// All 500 bytes of the buffer, those past the text included.
    pub closed spec fn bytes(&self) -> Seq<u8> {
        self.buf@
    }

    /// Number of bytes of text at the start of the buffer.
    pub closed spec fn size(&self) -> int {
        self.size as int
    }

    /// Room left in the buffer.
    pub open spec fn room(&self) -> int {
        CONSOLE_WRITER_SIZE - self.size()
    }

    /// The buffer holds 500 bytes and the text stays within it.
    pub open spec fn wf(&self) -> bool {
        &&& 0 <= self.size() <= CONSOLE_WRITER_SIZE
        &&& self.bytes().len() == CONSOLE_WRITER_SIZE
    }

    /// The text written so far is the start of the buffer, up to the size.
    pub proof fn lemma_text_is_prefix(&self)
        requires
            self.wf(),
        ensures
            self@ == self.bytes().take(self.size()),
            self@.len() == self.size(),
    {
        assert(self@ =~= self.bytes().take(self.size()));
    }

    /// An empty writer.
    pub fn new() -> (w: ConsoleWriter)
        ensures
            w.wf(),
            w@ == Seq::<u8>::empty(),
            w.room() == CONSOLE_WRITER_SIZE,
            w.size() == 0,
            w.bytes() == Seq::new(CONSOLE_WRITER_SIZE as nat, |i: int| 0u8),
    {
        let w = ConsoleWriter { buf: [0u8; 500], size: 0 };
        assert(w@ =~= Seq::<u8>::empty());
        assert(w.bytes() =~= Seq::new(CONSOLE_WRITER_SIZE as nat, |i: int| 0u8));
        w
    }

    /// Forgets what was written: the size goes back to 0 and the bytes of
    /// the buffer are kept as they are.
    pub fn clear(&mut self)
        requires
            old(self).wf(),
        ensures
            final(self).wf(),
            final(self)@ == Seq::<u8>::empty(),
            final(self).room() == CONSOLE_WRITER_SIZE,
            final(self).size() == 0,
            final(self).bytes() == old(self).bytes(),
    {
        self.size = 0;
        assert(self@ =~= Seq::<u8>::empty());
    }

    /// Appends the bytes of `s`; there must be room for them.
    pub fn write_str(&mut self, s: &str) -> (r: Result<(), core::fmt::Error>)
        requires
            old(self).wf(),
            text(s).len() <= old(self).room(),
        ensures
            final(self).wf(),
            final(self)@ == old(self)@ + text(s),
            final(self).room() == old(self).room() - text(s).len(),
            final(self).size() == old(self).size() + text(s).len(),
            final(self).bytes() == splice(old(self).bytes(), old(self).size(), text(s)),
            r is Ok,
    {
        self.write_bytes(s.as_bytes());
        Ok(())
    }

    /// Appends `bytes`; there must be room for them.
    pub fn write_bytes(&mut self, bytes: &[u8])
        requires
            old(self).wf(),
            bytes@.len() <= old(self).room(),
        ensures
            final(self).wf(),
            final(self)@ == old(self)@ + bytes@,
            final(self).room() == old(self).room() - bytes@.len(),
            final(self).size() == old(self).size() + bytes@.len(),
            final(self).bytes() == splice(old(self).bytes(), old(self).size(), bytes@),
    {
        let curr = bytes.len();
        let start = self.size;
        let mut i: usize = 0;
        while i < curr
            invariant
                i <= curr,
                curr == bytes@.len(),
                start == old(self).size,
                start + curr <= 500,
                self.size == start,
                self.buf@.len() == 500,
                forall|k: int| 0 <= k < 500 ==> #[trigger] self.buf@[k] == (if start <= k < start + i {
                    bytes@[k - start]
                } else {
                    old(self).buf@[k]
                }),
            decreases curr - i,
        {
            self.buf[start + i] = bytes[i];
            i = i + 1;
        }
        self.size = start + curr;
        assert(self@ =~= old(self)@ + bytes@);
        assert(self.buf@ =~= splice(old(self).buf@, start as int, bytes@));
    }

    /// The bytes written so far.
    pub fn contents(&self) -> (v: Vec<u8>)
        requires
            self.wf(),
        ensures
            v@ == self@,
    {
        let mut v: Vec<u8> = Vec::new();
        let mut i: usize = 0;
        while i < self.size
            invariant
                i <= self.size,
                self.size <= 500,
                self.buf@.len() == 500,
                v@ == self.buf@.subrange(0, i as int),
            decreases self.size - i,
        {
            v.push(self.buf[i]);
            i = i + 1;
            assert(v@ =~= self.buf@.subrange(0, i as int));
        }
        v
    }
}

} // verus!

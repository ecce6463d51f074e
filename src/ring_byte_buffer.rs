use vstd::prelude::*;
use vstd::slice::slice_subrange;

verus! {

/// The storage index `n` places after `pos` in a storage of `cap` bytes
/// (for `n` at most `cap`).
pub open spec fn advance(pos: nat, n: nat, cap: nat) -> nat {
    if pos + n < cap {
        pos + n
    } else {
        (pos + n - cap) as nat
    }
}

/// A fixed-capacity circular byte buffer that stages bytes between a
/// transport and the decoder.
#[derive(Debug, Clone, PartialEq)]
pub struct RingByteBuffer {
    buf: Vec<u8>,
    head: usize,
    size: usize,
}

impl View for RingByteBuffer {
    type V = Seq<u8>;

    /// The buffered bytes, oldest first.
    closed spec fn view(&self) -> Seq<u8> {
        Seq::new(self.size as nat, |i: int| self.buf@[self.slot(i)])
    }
}

impl RingByteBuffer {
    /// Invariant: the read position lies in the storage and the buffered
    /// bytes fit in it.
    pub closed spec fn wf(&self) -> bool {
        &&& self.size <= self.buf@.len()
        &&& (self.head < self.buf@.len() || (self.head == 0 && self.buf@.len() == 0))
    }

    /// The fixed number of bytes the buffer can hold.
    pub closed spec fn spec_capacity(&self) -> nat {
        self.buf@.len()
    }

    /// Storage index of the oldest buffered byte.
    pub closed spec fn read_pos(&self) -> nat {
        self.head as nat
    }

    /// How many of the buffered bytes can be read without wrapping around:
    /// those up to the end of the storage.
    pub open spec fn contiguous(&self) -> nat {
        if self@.len() + self.read_pos() <= self.spec_capacity() {
            self@.len()
        } else {
            (self.spec_capacity() - self.read_pos()) as nat
        }
    }

    /// Storage index of the `i`-th buffered byte.
    spec fn slot(&self, i: int) -> int {
        if self.head + i < self.buf@.len() {
            self.head + i
        } else {
            self.head + i - self.buf@.len()
        }
    }

    /// An empty buffer that can hold `capacity` bytes.
    pub fn with_capacity(capacity: usize) -> (r: RingByteBuffer)
        ensures
            r.wf(),
            r@ == Seq::<u8>::empty(),
            r.spec_capacity() == capacity,
            r.read_pos() == 0,
    {
        let r = RingByteBuffer { buf: vec![0u8; capacity], head: 0, size: 0 };
        assert(r@ =~= Seq::<u8>::empty());
        r
    }

    /// The number of buffered bytes.
    pub fn len(&self) -> (r: usize)
        requires
            self.wf(),
        ensures
            r == self@.len(),
    {
        self.size
    }

    /// The number of bytes the buffer can hold.
    pub fn capacity(&self) -> (r: usize)
        ensures
            r == self.spec_capacity(),
    {
        self.buf.len()
    }

    /// Room left for new bytes.
    pub fn free_space(&self) -> (r: usize)
        requires
            self.wf(),
        ensures
            r == self.spec_capacity() - self@.len(),
    {
        self.buf.len() - self.size
    }

    /// Storage index just past the newest byte.
    fn tail(&self) -> (r: usize)
        requires
            self.wf(),
            self.size < self.buf@.len(),
        ensures
            r == self.slot(self.size as int),
            r < self.buf@.len(),
    {
        if self.size < self.buf.len() - self.head {
            self.head + self.size
        } else {
            self.size - (self.buf.len() - self.head)
        }
    }

    /// The oldest buffered bytes that lie next to each other in storage; it
    /// is empty only when the buffer is.
    pub fn current_read_slice(&self) -> (r: &[u8])
        requires
            self.wf(),
        ensures
            r@ == self@.take(self.contiguous() as int),
            self.contiguous() <= self@.len(),
            self.read_pos() < self.spec_capacity() || self.read_pos() == 0,
            self@.len() <= self.spec_capacity(),
            self@.len() > 0 ==> r@.len() > 0,
    {
        let end = if self.size <= self.buf.len() - self.head {
            self.head + self.size
        } else {
            self.buf.len()
        };
        let r = slice_subrange(self.buf.as_slice(), self.head, end);
        assert(r@ =~= self@.take(self.contiguous() as int));
        r
    }

    /// Drops up to `bytes` of the oldest bytes; returns how many were dropped.
    pub fn skip_bytes(&mut self, bytes: usize) -> (r: usize)
        requires
            old(self).wf(),
        ensures
            final(self).wf(),
            final(self).spec_capacity() == old(self).spec_capacity(),
            r == if bytes < old(self)@.len() {
                bytes
            } else {
                old(self)@.len() as usize
            },
            final(self)@ == old(self)@.skip(r as int),
            final(self).read_pos() == advance(old(self).read_pos(), r as nat, old(self).spec_capacity()),
            r as int == old(self).contiguous() ==> final(self).contiguous() == final(self)@.len(),
    {
        let skipped = if bytes < self.size {
            bytes
        } else {
            self.size
        };
        let ghost before = *self;
        self.head = if skipped < self.buf.len() - self.head {
            self.head + skipped
        } else {
            skipped - (self.buf.len() - self.head)
        };
        if self.head == self.buf.len() {
            self.head = 0;
        }
        self.size = self.size - skipped;
        assert(self@ =~= before@.skip(skipped as int));
        skipped
    }

    /// Appends as many bytes of `data` as there is room for; returns how
    /// many were taken.
    pub fn write(&mut self, data: &[u8]) -> (r: usize)
        requires
            old(self).wf(),
        ensures
            final(self).wf(),
            final(self).spec_capacity() == old(self).spec_capacity(),
            r == if data@.len() < old(self).spec_capacity() - old(self)@.len() {
                data@.len() as usize
            } else {
                (old(self).spec_capacity() - old(self)@.len()) as usize
            },
            final(self)@ == old(self)@ + data@.take(r as int),
            final(self).read_pos() == old(self).read_pos(),
    {
        let free = self.buf.len() - self.size;
        let written = if data.len() < free {
            data.len()
        } else {
            free
        };
        let mut k: usize = 0;
        while k < written
            invariant
                self.wf(),
                k <= written,
                written <= data@.len(),
                self.size == old(self).size + k,
                self.size + (written - k) <= self.buf@.len(),
                self.head == old(self).head,
                self.buf@.len() == old(self).buf@.len(),
                self@ == old(self)@ + data@.take(k as int),
            decreases written - k,
        {
            let ghost before = *self;
            let pos = self.tail();
            let cap = self.buf.len();
            self.buf.set(pos, data[k]);
            assert(self.size < cap);
            self.size = self.size + 1;
            assert forall|i: int| 0 <= i < before.size implies before.slot(i) != pos by {}
            assert(self@ =~= before@.push(data@[k as int]));
            assert(data@.take(k as int + 1) =~= data@.take(k as int).push(data@[k as int]));
            k = k + 1;
        }
        written
    }

    /// Moves up to `out.len()` of the oldest bytes into the start of `out`;
    /// returns how many were moved.
    pub fn read(&mut self, out: &mut [u8]) -> (r: usize)
        requires
            old(self).wf(),
        ensures
            final(self).wf(),
            final(self).spec_capacity() == old(self).spec_capacity(),
            r == if old(out)@.len() < old(self)@.len() {
                old(out)@.len() as usize
            } else {
                old(self)@.len() as usize
            },
            final(out)@ == old(self)@.take(r as int) + old(out)@.skip(r as int),
            final(self)@ == old(self)@.skip(r as int),
            final(self).read_pos() == advance(old(self).read_pos(), r as nat, old(self).spec_capacity()),
    {
        let n = if out.len() < self.size {
            out.len()
        } else {
            self.size
        };
        let mut k: usize = 0;
        let mut pos = self.head;
        let cap = self.buf.len();
        while k < n
            invariant
                self == old(self),
                self.wf(),
                cap == self.buf@.len(),
                k <= n,
                n <= self.size,
                n <= out@.len(),
                out@.len() == old(out)@.len(),
                k < self.size ==> pos == self.slot(k as int) && pos < self.buf@.len(),
                forall|t: int| 0 <= t < k ==> out@[t] == self@[t],
                forall|t: int| k <= t < out@.len() ==> out@[t] == old(out)@[t],
            decreases n - k,
        {
            out[k] = self.buf[pos];
            pos = if pos + 1 == cap {
                0
            } else {
                pos + 1
            };
            k = k + 1;
        }
        assert(out@ =~= old(self)@.take(n as int) + old(out)@.skip(n as int));
        self.skip_bytes(n);
        n
    }
}

} // verus!

//! A byte buffer with independent read/write cursors.
//!
//! A `ByteBuf` owns a contiguous byte region plus two cursors: `position`
//! (the next byte to read or write) and `limit` (the end of the window the
//! current mode may touch). While *filling*, `limit` equals the capacity and
//! `write` advances `position`; `flip` turns the buffer around for
//! *draining*, where `limit` marks the end of the valid data and reads
//! advance `position`. `clear` restores filling mode over the whole region.
//! The cursor invariant `position <= limit <= capacity` holds after every
//! operation.

use vstd::prelude::*;

verus! {

/// The mathematical model of a `ByteBuf`: its bytes and the two cursors.
#[verifier::ext_equal]
pub ghost struct BufModel {
    pub data: Seq<u8>,
    pub pos: int,
    pub lim: int,
}

impl BufModel {
    /// The cursor invariant: `position <= limit <= capacity`.
    pub open spec fn wf(self) -> bool {
        0 <= self.pos <= self.lim <= self.data.len()
    }

    pub open spec fn capacity(self) -> int {
        self.data.len() as int
    }

    /// How many bytes the current mode may still consume or produce.
    pub open spec fn remaining(self) -> int {
        self.lim - self.pos
    }

    /// Filling mode: the writable window runs to the end of the storage.
    pub open spec fn is_filling(self) -> bool {
        self.lim == self.data.len()
    }

    /// The bytes between the cursors: what a drain may still read, or the
    /// region a fill may still overwrite.
    pub open spec fn window(self) -> Seq<u8> {
        self.data.subrange(self.pos, self.lim)
    }

    /// The model after `flip`: the filled prefix becomes the readable window.
    pub open spec fn flipped(self) -> BufModel {
        BufModel { data: self.data, pos: 0, lim: self.pos }
    }

    /// The model after `clear`: filling mode over the whole region.
    pub open spec fn cleared(self) -> BufModel {
        BufModel { data: self.data, pos: 0, lim: self.data.len() as int }
    }

    /// The model after the cursor advances by `n` consumed bytes.
    pub open spec fn advanced(self, n: int) -> BufModel {
        BufModel { data: self.data, pos: self.pos + n, lim: self.lim }
    }

    /// How many of `count` offered bytes a write or read may move: the
    /// window never overflows `limit`.
    pub open spec fn moved_len(self, count: int) -> int {
        if count <= self.remaining() {
            count
        } else {
            self.remaining()
        }
    }

    /// The model after writing `bytes` (truncated to the window) at the
    /// position cursor.
    pub open spec fn written(self, bytes: Seq<u8>) -> BufModel {
        let n = self.moved_len(bytes.len() as int);
        BufModel {
            data: self.data.take(self.pos) + bytes.take(n) + self.data.skip(self.pos + n),
            pos: self.pos + n,
            lim: self.lim,
        }
    }
}

/// A fixed-capacity byte region with `position` and `limit` cursors,
/// supporting the fill/flip/drain protocol without copies or reallocation.
pub struct ByteBuf {
    data: Vec<u8>,
    pos: usize,
    lim: usize,
}

impl View for ByteBuf {
    type V = BufModel;

    closed spec fn view(&self) -> BufModel {
        BufModel { data: self.data@, pos: self.pos as int, lim: self.lim as int }
    }
}

impl ByteBuf {
    /// A fresh zeroed buffer of the given capacity, in filling mode.
    pub fn new(capacity: usize) -> (b: ByteBuf)
        ensures
            b@.wf(),
            b@.pos == 0,
            b@.lim == capacity,
            b@.is_filling(),
            b@.data =~= Seq::new(capacity as nat, |i: int| 0u8),
    {
        ByteBuf { data: vec![0u8; capacity], pos: 0, lim: capacity }
    }

    /// A draining view over already-filled data: the whole of `bytes` is the
    /// readable window.
    pub fn wrap(bytes: &[u8]) -> (b: ByteBuf)
        ensures
            b@.wf(),
            b@.data == bytes@,
            b@.pos == 0,
            b@.lim == bytes@.len(),
            b@.window() =~= bytes@,
    {
        let len = bytes.len();
        ByteBuf { data: vstd::slice::slice_to_vec(bytes), pos: 0, lim: len }
    }

    pub fn capacity(&self) -> (r: usize)
        ensures
            r == self@.capacity(),
    {
        self.data.len()
    }

    pub fn position(&self) -> (r: usize)
        ensures
            r == self@.pos,
    {
        self.pos
    }

    pub fn limit(&self) -> (r: usize)
        ensures
            r == self@.lim,
    {
        self.lim
    }

    /// The number of bytes still available to the current mode:
    /// always `limit - position`.
    pub fn remaining(&self) -> (r: usize)
        requires
            self@.wf(),
        ensures
            r == self@.remaining(),
            r == self@.lim - self@.pos,
    {
        self.lim - self.pos
    }

    /// Turns filling into draining: the bytes written so far become the
    /// readable window.
    pub fn flip(&mut self)
        requires
            old(self)@.wf(),
        ensures
            final(self)@ == old(self)@.flipped(),
            final(self)@.wf(),
            final(self)@.remaining() == old(self)@.pos,
    {
        self.lim = self.pos;
        self.pos = 0;
        proof {
            assert(self@ =~= old(self)@.flipped());
        }
    }

    /// Restores filling mode over the whole region, keeping the bytes.
    pub fn clear(&mut self)
        requires
            old(self)@.wf(),
        ensures
            final(self)@ == old(self)@.cleared(),
            final(self)@.wf(),
            final(self)@.is_filling(),
            final(self)@.remaining() == old(self)@.capacity(),
    {
        self.pos = 0;
        self.lim = self.data.len();
        proof {
            assert(self@ =~= old(self)@.cleared());
        }
    }

    /// Consumes `n` bytes of the current window without copying them.
    pub fn advance(&mut self, n: usize)
        requires
            old(self)@.wf(),
            n <= old(self)@.remaining(),
        ensures
            final(self)@ == old(self)@.advanced(n as int),
            final(self)@.wf(),
    {
        self.pos = self.pos + n;
        proof {
            assert(self@ =~= old(self)@.advanced(n as int));
        }
    }

    /// The valid window, without copying: while draining, the bytes still
    /// unread; while filling, the region still writable.
    pub fn bytes(&self) -> (r: &[u8])
        requires
            self@.wf(),
        ensures
            r@ == self@.window(),
    {
        vstd::slice::slice_subrange(self.data.as_slice(), self.pos, self.lim)
    }

    /// Appends as much of `bytes` as the window allows while filling and
    /// advances `position`; never overflows `limit`. Returns how many bytes
    /// were taken.
    #[verifier::loop_isolation(false)]
    pub fn write(&mut self, bytes: &[u8]) -> (n: usize)
        requires
            old(self)@.wf(),
        ensures
            final(self)@ == old(self)@.written(bytes@),
            final(self)@.wf(),
            n == old(self)@.moved_len(bytes@.len() as int),
            final(self)@.pos == old(self)@.pos + n,
            final(self)@.lim == old(self)@.lim,
    {
        let rem = self.lim - self.pos;
        let n = if bytes.len() <= rem {
            bytes.len()
        } else {
            rem
        };
        let mut i: usize = 0;
        while i < n
            invariant
                i <= n,
                self.pos == old(self).pos,
                self.lim == old(self).lim,
                self.data@.len() == old(self).data@.len(),
                forall|j: int| 0 <= j < i ==> self.data@[self.pos + j] == bytes@[j],
                forall|k: int|
                    0 <= k < self.data@.len() && !(self.pos <= k < self.pos + i)
                        ==> self.data@[k] == old(self).data@[k],
            decreases n - i,
        {
            let b = bytes[i];
            self.data[self.pos + i] = b;
            i = i + 1;
        }
        self.pos = self.pos + n;
        proof {
            assert(self@.data =~= old(self)@.data.take(old(self)@.pos) + bytes@.take(n as int)
                + old(self)@.data.skip(old(self)@.pos + n));
            assert(self@ =~= old(self)@.written(bytes@));
        }
        n
    }

    /// Consumes up to `dst.len()` bytes of the window while draining,
    /// overwriting the front of `dst` in order. Returns how many bytes were
    /// moved.
    #[verifier::loop_isolation(false)]
    pub fn read_into(&mut self, dst: &mut Vec<u8>) -> (n: usize)
        requires
            old(self)@.wf(),
        ensures
            final(self)@ == old(self)@.advanced(n as int),
            final(self)@.wf(),
            n == old(self)@.moved_len(old(dst)@.len() as int),
            final(dst)@.len() == old(dst)@.len(),
            final(dst)@ =~= old(self)@.window().take(n as int) + old(dst)@.skip(n as int),
    {
        let rem = self.lim - self.pos;
        let n = if dst.len() <= rem {
            dst.len()
        } else {
            rem
        };
        let mut i: usize = 0;
        while i < n
            invariant
                i <= n,
                dst@.len() == old(dst)@.len(),
                forall|j: int| 0 <= j < i ==> dst@[j] == self.data@[self.pos + j],
                forall|k: int| i <= k < dst@.len() ==> dst@[k] == old(dst)@[k],
            decreases n - i,
        {
            let b = self.data[self.pos + i];
            dst[i] = b;
            i = i + 1;
        }
        self.pos = self.pos + n;
        proof {
            assert(self@ =~= old(self)@.advanced(n as int));
        }
        n
    }
}

/// A draining view over already-filled data, as `ByteBuf::wrap` gives it.
pub fn wrap(bytes: &[u8]) -> (b: ByteBuf)
    ensures
        b@.wf(),
        b@.data == bytes@,
        b@.pos == 0,
        b@.lim == bytes@.len(),
        b@.window() =~= bytes@,
{
    ByteBuf::wrap(bytes)
}

/// Law: `remaining()` is exactly `limit - position`, and the cursors never
/// leave `position <= limit <= capacity`.
pub proof fn lemma_cursor_invariant(m: BufModel)
    requires
        m.wf(),
    ensures
        m.remaining() == m.lim - m.pos,
        0 <= m.pos <= m.lim <= m.capacity(),
{
}

/// Law: `flip()` followed by `clear()` restores filling mode with
/// `remaining()` equal to the full capacity.
pub proof fn lemma_flip_then_clear(m: BufModel)
    requires
        m.wf(),
    ensures
        m.flipped().cleared().wf(),
        m.flipped().cleared().is_filling(),
        m.flipped().cleared().pos == 0,
        m.flipped().cleared().remaining() == m.capacity(),
{
}

/// Law (round trip): writing `bytes` into a buffer whose cursor sits at the
/// start, then flipping, exposes exactly the bytes written, in order, with
/// no gain or loss.
pub proof fn lemma_write_flip_round_trip(m: BufModel, bytes: Seq<u8>)
    requires
        m.wf(),
        m.pos == 0,
        bytes.len() <= m.remaining(),
    ensures
        m.written(bytes).wf(),
        m.written(bytes).flipped().window() =~= bytes,
        m.written(bytes).flipped().remaining() == bytes.len(),
{
    assert(m.written(bytes).flipped().window() =~= bytes);
}

} // verus!

//! Mathematical model of the range-window buffer.
//!
//! The buffer caches a single contiguous interval of the remote stream:
//! `win[i]` holds the byte at absolute offset `head + i`. All window
//! decisions (what to discard, what to fetch, what can be served) are
//! defined here as spec functions; the executable buffer and readers are
//! specified against them.

use vstd::prelude::*;

verus! {

/// Model of the buffer: the cached bytes, the absolute stream offset of the
/// first cached byte, the cursor used by offset-less reads, and the fetch
/// amplification floor.
#[verifier::ext_equal]
pub ghost struct BufModel {
    pub win: Seq<u8>,
    pub head: int,
    pub offset: int,
    pub min_req_size: int,
}

impl BufModel {
    /// Absolute stream offset just past the cached window.
    pub open spec fn tail(self) -> int {
        self.head + self.win.len()
    }

    /// The window fits the machine: its end offset is representable, and
    /// the cursor and amplification floor are machine values.
    pub open spec fn wf(self) -> bool {
        &&& 0 <= self.head
        &&& self.tail() <= usize::MAX
        &&& 0 <= self.offset <= usize::MAX
        &&& 0 <= self.min_req_size <= usize::MAX
    }

    /// The requested range `[begin, begin + length)` lies fully inside the
    /// cached window `[head, tail)`.
    pub open spec fn contains(self, begin: int, length: int) -> bool {
        self.head <= begin && begin + length <= self.tail()
    }

    /// Reconcile the cache boundary with a request starting at `begin`:
    /// keep the suffix `[begin, tail)` when `begin` lies strictly inside the
    /// window, discard everything when `begin` lies before `head` or at or
    /// past `tail`, and keep everything when `begin == head`.
    pub open spec fn reconcile(self, begin: int) -> BufModel {
        if self.head < begin && begin < self.tail() {
            BufModel { win: self.win.subrange(begin - self.head, self.win.len() as int), head: begin, ..self }
        } else if begin >= self.tail() || begin < self.head {
            BufModel { win: Seq::empty(), head: begin, ..self }
        } else {
            self
        }
    }

    /// Fetch window for a request: `None` when the request is fully covered
    /// by the cache; otherwise the fetch starts just past the bytes retained
    /// by `reconcile` (never re-fetching resident bytes) and the requested
    /// remainder is amplified up to at least `min_req_size`.
    pub open spec fn plan(self, begin: int, length: int) -> Option<(int, int)> {
        if self.contains(begin, length) {
            None
        } else {
            let r = self.reconcile(begin);
            let fetch_begin = vstd::math::max(begin, r.tail());
            Some((fetch_begin, vstd::math::max(begin + length - fetch_begin, self.min_req_size)))
        }
    }

    /// Window after appending fetched bytes at the tail.
    pub open spec fn absorb(self, bytes: Seq<u8>) -> BufModel {
        BufModel { win: self.win + bytes, ..self }
    }

    /// How many bytes of `[begin, begin + length)` are resident: the final
    /// fetch near end-of-resource may have returned fewer bytes than
    /// requested, so the effective length is capped by the window's tail.
    pub open spec fn served_len(self, begin: int, length: int) -> int {
        vstd::math::min(length, self.tail() - begin)
    }

    /// The resident bytes served for a request `[begin, begin + length)`.
    pub open spec fn served(self, begin: int, length: int) -> Seq<u8> {
        self.win.subrange(begin - self.head, begin - self.head + self.served_len(begin, length))
    }
}

/// State after `seek(Start(p))`: only the cursor moves.
pub open spec fn seek_start(m: BufModel, p: int) -> BufModel {
    BufModel { offset: p, ..m }
}

/// Full model of one `get_range(begin, length)` call whose fetch (if one was
/// planned) returned `fetched`: the resulting buffer state and the served
/// bytes. When the request is covered by the cache, `fetched` is ignored.
pub open spec fn read_outcome(m: BufModel, begin: int, length: int, fetched: Seq<u8>) -> (BufModel, Seq<u8>) {
    let after = if m.contains(begin, length) {
        m
    } else {
        m.reconcile(begin).absorb(fetched)
    };
    let k = after.served_len(begin, length);
    ((BufModel { offset: begin + k, ..after }), after.served(begin, length))
}

/// Law: a request fully contained in the window plans no fetch, and
/// repeating an already-served request — the state differs from the serving
/// state only in the cursor — serves exactly the same bytes again.
pub proof fn lemma_idempotent_reread(m: BufModel, begin: int, length: int, off: int)
    requires
        m.contains(begin, length),
    ensures
        (BufModel { offset: off, ..m }).plan(begin, length) is None,
        (BufModel { offset: off, ..m }).served(begin, length) == m.served(begin, length),
{
}

/// Law: `seek(Start(p))` followed by a read of length `n` at the cursor
/// yields the same bytes and the same resulting state as `get_range(p, n)`
/// issued directly, whatever the fetch returned.
pub proof fn lemma_seek_then_read(m: BufModel, p: int, n: int, fetched: Seq<u8>)
    ensures
        seek_start(m, p).offset == p,
        read_outcome(seek_start(m, p), p, n, fetched) == read_outcome(m, p, n, fetched),
{
    let s = seek_start(m, p);
    assert(read_outcome(s, p, n, fetched).0 =~= read_outcome(m, p, n, fetched).0);
    assert(read_outcome(s, p, n, fetched).1 == read_outcome(m, p, n, fetched).1);
}

/// Law: when a fetch occurs, the served slice's length is what is actually
/// resident past `begin`, capped at the request: a short fetch yields a
/// short slice, never the requested length.
pub proof fn lemma_short_read(m: BufModel, begin: int, length: int, fetched: Seq<u8>)
    requires
        !m.contains(begin, length),
        0 <= length,
    ensures
        read_outcome(m, begin, length, fetched).1.len() == vstd::math::min(
            length,
            m.reconcile(begin).win.len() + fetched.len() as int,
        ),
{
    let after = m.reconcile(begin).absorb(fetched);
    assert(after.head == begin);
}

} // verus!

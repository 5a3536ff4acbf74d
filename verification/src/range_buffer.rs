//! Buffer for HTTP Range request readers: a single contiguous cached window
//! of the remote stream, with the window decision algorithm.

use vstd::prelude::*;
use vstd::string::StringExecFns;

use crate::decimal::dec_chars;
use crate::decimal::u64_to_string;
use crate::model::BufModel;

verus! {

/// Inclusive end offset of the range `[begin, begin + length)`, saturating
/// at zero when the range is empty at the start of the stream.
pub open spec fn range_end(begin: int, length: int) -> int {
    if begin + length >= 1 {
        begin + length - 1
    } else {
        0
    }
}

/// The HTTP `Range` header value requesting `[begin, begin + length)`:
/// `bytes=<begin>-<end>` with an inclusive end.
pub open spec fn range_header_chars(begin: int, length: int) -> Seq<char> {
    "bytes="@ + dec_chars(begin as nat) + "-"@ + dec_chars(range_end(begin, length) as nat)
}

/// Buffer holding the currently cached window of the remote stream.
/// `buf[i]` corresponds to absolute stream offset `head + i`.
pub struct HttpRangeBuffer {
    buf: Vec<u8>,
    min_req_size: usize,
    /// Current position for read/seek style access.
    offset: usize,
    /// Lower index of the buffer relative to the input stream.
    head: usize,
}

impl View for HttpRangeBuffer {
    type V = BufModel;

    closed spec fn view(&self) -> BufModel {
        BufModel {
            win: self.buf@,
            head: self.head as int,
            offset: self.offset as int,
            min_req_size: self.min_req_size as int,
        }
    }
}

impl HttpRangeBuffer {
    /// A fresh buffer: empty window at offset 0, with the default fetch
    /// amplification floor of 1024 bytes.
    pub fn new() -> (r: HttpRangeBuffer)
        ensures
            r@ == (BufModel { win: Seq::empty(), head: 0, offset: 0, min_req_size: 1024 }),
            r@.wf(),
    {
        let r = HttpRangeBuffer { buf: Vec::new(), min_req_size: 1024, offset: 0, head: 0 };
        proof {
            assert(r@ =~= (BufModel { win: Seq::empty(), head: 0, offset: 0, min_req_size: 1024 }));
        }
        r
    }

    /// Absolute stream offset just past the cached window.
    pub fn tail(&self) -> (t: usize)
        requires
            self@.wf(),
        ensures
            t == self@.tail(),
    {
        self.head + self.buf.len()
    }

    /// Absolute stream offset of the first cached byte.
    pub fn head(&self) -> (h: usize)
        ensures
            h == self@.head,
    {
        self.head
    }

    /// Current cursor position for offset-less reads.
    pub fn offset(&self) -> (o: usize)
        ensures
            o == self@.offset,
    {
        self.offset
    }

    /// The fetch amplification floor.
    pub fn min_req_size(&self) -> (s: usize)
        ensures
            s == self@.min_req_size,
    {
        self.min_req_size
    }

    /// Set the fetch amplification floor.
    pub fn set_min_req_size(&mut self, size: usize)
        ensures
            final(self)@ == (BufModel { min_req_size: size as int, ..old(self)@ }),
    {
        self.min_req_size = size;
    }

    /// Set the cursor position.
    pub fn set_offset(&mut self, offset: usize)
        ensures
            final(self)@ == (BufModel { offset: offset as int, ..old(self)@ }),
    {
        self.offset = offset;
    }

    /// Decide whether a request `[begin, begin + length)` needs a network
    /// fetch. Returns `None` when the request is covered by the cache.
    /// Otherwise reconciles the window with the request (retaining the
    /// suffix `[begin, tail)` when `begin` lies strictly inside the window,
    /// discarding everything on a jump) and returns the fetch window:
    /// its start never re-fetches retained bytes, and its length is the
    /// requested remainder amplified up to at least `min_req_size`.
    pub fn get_request_range(&mut self, begin: usize, length: usize) -> (r: Option<(usize, usize)>)
        requires
            old(self)@.wf(),
            begin + length <= usize::MAX,
            !old(self)@.contains(begin as int, length as int)
                ==> begin + length + old(self)@.min_req_size <= usize::MAX,
        ensures
            final(self)@.wf(),
            final(self)@.offset == old(self)@.offset,
            final(self)@.min_req_size == old(self)@.min_req_size,
            (r is None) == old(self)@.contains(begin as int, length as int),
            r is None ==> final(self)@ == old(self)@,
            r matches Some((fetch_begin, fetch_length)) ==> ({
                &&& old(self)@.plan(begin as int, length as int) == Some((fetch_begin as int, fetch_length as int))
                &&& final(self)@ == old(self)@.reconcile(begin as int)
                &&& final(self)@.head == begin
                &&& final(self)@.tail() == fetch_begin
                &&& begin <= fetch_begin <= begin + length
                &&& fetch_length >= old(self)@.min_req_size
                &&& fetch_begin + fetch_length <= begin + length + old(self)@.min_req_size
            }),
            old(self)@.head < begin && begin < old(self)@.tail()
                && !old(self)@.contains(begin as int, length as int) ==> final(self)@.win
                == old(self)@.win.subrange(begin - old(self)@.head, old(self)@.win.len() as int),
    {
        if begin + length > self.tail() || begin < self.head {
            // Remove bytes before the new begin
            if begin > self.head && begin < self.tail() {
                let rest = self.buf.split_off(begin - self.head);
                self.buf = rest;
                self.head = begin;
            } else if begin >= self.tail() || begin < self.head {
                self.buf.clear();
                self.head = begin;
            }
            proof {
                assert(self@ =~= old(self)@.reconcile(begin as int));
            }
            // Read additional bytes into the buffer, starting past what is
            // retained
            let t = self.tail();
            let range_begin = if begin > t {
                begin
            } else {
                t
            };
            let remainder = begin + length - range_begin;
            let range_length = if remainder > self.min_req_size {
                remainder
            } else {
                self.min_req_size
            };
            Some((range_begin, range_length))
        } else {
            None
        }
    }

    /// Build the `Range` header value `bytes=<begin>-<end>` (inclusive end)
    /// requesting `[begin, begin + length)`. When `length == 0` the
    /// inclusive end computation saturates at zero rather than underflowing.
    pub fn range(&self, begin: usize, length: usize) -> (r: String)
        requires
            begin + length <= usize::MAX,
        ensures
            r@ == range_header_chars(begin as int, length as int),
    {
        let end = if begin + length >= 1 {
            begin + length - 1
        } else {
            0
        };
        let mut s = String::from_str("bytes=");
        s.append(u64_to_string(begin as u64).as_str());
        s.append("-");
        s.append(u64_to_string(end as u64).as_str());
        s
    }

    /// Append fetched bytes at the tail of the window. The bytes are
    /// contiguous with the current tail by construction of the fetch window.
    pub fn absorb(&mut self, bytes: Vec<u8>)
        requires
            old(self)@.wf(),
            old(self)@.tail() + bytes@.len() <= usize::MAX,
        ensures
            final(self)@ == old(self)@.absorb(bytes@),
            final(self)@.wf(),
    {
        let mut b = bytes;
        self.buf.append(&mut b);
        proof {
            assert(self@ =~= old(self)@.absorb(bytes@));
        }
    }

    /// Serve the request `[begin, begin + length)` out of the window,
    /// capping the effective length at the bytes actually resident, and
    /// advance the cursor past the served bytes. Callers must use the
    /// returned slice's length, not the requested length, as ground truth.
    pub fn slice(&mut self, begin: usize, length: usize) -> (r: &[u8])
        requires
            old(self)@.wf(),
            old(self)@.head <= begin <= old(self)@.tail(),
            begin + length <= usize::MAX,
        ensures
            final(self)@ == (BufModel {
                offset: begin + old(self)@.served_len(begin as int, length as int),
                ..old(self)@
            }),
            r@ == old(self)@.served(begin as int, length as int),
            r@.len() == old(self)@.served_len(begin as int, length as int),
    {
        let t = self.tail();
        let avail = t - begin;
        let slice_len = if length < avail {
            length
        } else {
            avail
        };
        self.offset = begin + slice_len;
        let lower = begin - self.head;
        proof {
            assert(self@ =~= (BufModel {
                offset: begin + old(self)@.served_len(begin as int, length as int),
                ..old(self)@
            }));
        }
        vstd::slice::slice_subrange(self.buf.as_slice(), lower, lower + slice_len)
    }

    /// The resident bytes from absolute offset `from` up to the tail,
    /// without touching the cursor.
    pub fn window_suffix(&self, from: usize) -> (r: &[u8])
        requires
            self@.wf(),
            self@.head <= from <= self@.tail(),
        ensures
            r@ == self@.win.subrange(from - self@.head, self@.win.len() as int),
    {
        let lower = from - self.head;
        vstd::slice::slice_subrange(self.buf.as_slice(), lower, self.buf.len())
    }
}

} // verus!

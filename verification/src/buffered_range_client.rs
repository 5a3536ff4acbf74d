//! Blocking HTTP client adapter for HTTP Range requests with a buffer
//! optimized for sequential reading: `get_range`/`get_bytes` plus stream
//! reader semantics (`read`, `seek`, `fill_buf`/`consume`).

use vstd::prelude::*;
use vstd::string::StringExecFns;

use crate::error::is_io_error_for;
use crate::error::io_error_for;
use crate::error::HttpError;
use crate::error::IoError;
use crate::model::read_outcome;
use crate::model::BufModel;
use crate::range_buffer::HttpRangeBuffer;
use crate::range_client::SyncHttpRangeClient;

verus! {

/// Seek positions for the stream-reader surface.
#[derive(Debug, Clone, Copy, PartialEq, Eq)]
pub enum SeekFrom {
    Start(u64),
    End(i64),
    Current(i64),
}

/// `a + d` clamped into `[0, usize::MAX]`.
pub open spec fn sat_add_signed(a: int, d: int) -> int {
    if a + d < 0 {
        0
    } else if a + d > usize::MAX {
        usize::MAX as int
    } else {
        a + d
    }
}

/// `a + d` clamped into `[0, u64::MAX]`.
pub open spec fn sat_add_signed_u64(a: int, d: int) -> int {
    if a + d < 0 {
        0
    } else if a + d > u64::MAX {
        u64::MAX as int
    } else {
        a + d
    }
}

fn sat_add_signed_usize_exec(a: usize, d: isize) -> (r: usize)
    ensures
        r == sat_add_signed(a as int, d as int),
{
    if d >= 0 {
        let du = d as usize;
        if a <= usize::MAX - du {
            a + du
        } else {
            usize::MAX
        }
    } else {
        let mag = ((-(d + 1)) as usize) + 1;
        if a >= mag {
            a - mag
        } else {
            0
        }
    }
}

fn sat_add_signed_u64_exec(a: u64, d: i64) -> (r: u64)
    ensures
        r == sat_add_signed_u64(a as int, d as int),
{
    if d >= 0 {
        let du = d as u64;
        if a <= u64::MAX - du {
            a + du
        } else {
            u64::MAX
        }
    } else {
        let mag = ((-(d + 1)) as u64) + 1;
        if a >= mag {
            a - mag
        } else {
            0
        }
    }
}

/// How a `content-length` probe's header value is interpreted: a missing
/// header is an unknown length, a numeric value (as `spec_parse_u64`
/// accepts it) is the length, and a present but non-numeric value is a
/// parse error carrying the fixed message.
pub open spec fn content_length_outcome(
    hv: Option<Seq<char>>,
    r: Result<Option<u64>, HttpError>,
) -> bool {
    match hv {
        Option::None => r == Ok::<Option<u64>, HttpError>(Option::<u64>::None),
        Option::Some(v) => match crate::decimal::spec_parse_u64(v) {
            Option::Some(l) => r == Ok::<Option<u64>, HttpError>(Some(l)),
            Option::None => r matches Err(e) && e matches HttpError::HttpError(m) && m@
                == "Invalid content-length received"@,
        },
    }
}

/// Interpret the outcome of a `content-length` probe: the result is fixed
/// for every possible header value.
pub fn interpret_content_length(header_val: Option<String>) -> (r: Result<Option<u64>, HttpError>)
    ensures
        content_length_outcome(
            (match header_val {
                Option::Some(v) => Option::Some(v@),
                Option::None => Option::<Seq<char>>::None,
            }),
            r,
        ),
{
    match header_val {
        Some(val) => {
            match crate::decimal::parse_u64(val.as_str()) {
                Some(l) => Ok(Some(l)),
                None => Err(HttpError::HttpError("Invalid content-length received".to_owned())),
            }
        },
        None => Ok(None),
    }
}

/// HTTP client adapter for HTTP Range requests with a buffer optimized for
/// sequential reading.
pub struct SyncBufferedHttpRangeClient<T: SyncHttpRangeClient> {
    http_client: T,
    url: String,
    buffer: HttpRangeBuffer,
    length_info: Option<Option<u64>>,
}

impl<T: SyncHttpRangeClient> SyncBufferedHttpRangeClient<T> {
    /// Model of the wrapped window buffer.
    pub closed spec fn buf_model(&self) -> BufModel {
        self.buffer@
    }

    /// Cached total-length probe outcome, if any: `None` before any probe,
    /// `Some(None)` when the probe found no `content-length` header,
    /// `Some(Some(l))` when it found and parsed one.
    pub closed spec fn spec_length_info(&self) -> Option<Option<u64>> {
        self.length_info
    }

    /// The resource URL.
    pub closed spec fn spec_url(&self) -> Seq<char> {
        self.url@
    }

    /// The injected fetcher.
    pub closed spec fn spec_client(&self) -> T {
        self.http_client
    }

    /// The fetcher handle and URL are untouched.
    pub open spec fn same_session(self, other: Self) -> bool {
        self.spec_client() == other.spec_client() && self.spec_url() == other.spec_url()
    }

    /// What one `get_range(begin, length)` call guarantees, for every fetch
    /// outcome: a request covered by the cache is served from it without
    /// state change beyond the cursor; otherwise the window is reconciled,
    /// whatever the fetch returned is absorbed at the tail on success, and
    /// the served bytes are the resident prefix of the request, capped at
    /// what is resident.
    pub open spec fn get_range_post(
        pre: Self,
        post: Self,
        begin: int,
        length: int,
        r: Result<Seq<u8>, HttpError>,
    ) -> bool {
        let m0 = pre.buf_model();
        let m1 = post.buf_model();
        &&& m1.wf()
        &&& pre.same_session(post)
        &&& post.spec_length_info() == pre.spec_length_info()
        &&& m1.min_req_size == m0.min_req_size
        &&& (m0.contains(begin, length) ==> r is Ok && m1 == (BufModel {
            offset: begin + length,
            ..m0
        }))
        &&& (r matches Ok(bytes) ==> {
            &&& (exists|fetched: Seq<u8>| (m1, bytes) == read_outcome(m0, begin, length, fetched))
            &&& bytes.len() == m1.served_len(begin, length)
            &&& bytes == m1.served(begin, length)
            &&& m1.offset == begin + bytes.len()
            &&& m1.contains(begin, bytes.len() as int)
            &&& bytes.len() <= length
            &&& (!m0.contains(begin, length) ==> m1.head == begin && m0.reconcile(
                begin,
            ).win.is_prefix_of(m1.win))
        })
        &&& (r is Err ==> !m0.contains(begin, length) && m1 == m0.reconcile(begin))
    }

    /// Wrap a fetcher and a resource URL: empty window, cursor at 0, no
    /// cached length, default fetch amplification floor of 1024 bytes.
    pub fn with(http_client: T, url: &str) -> (r: SyncBufferedHttpRangeClient<T>)
        ensures
            r.buf_model() == (BufModel { win: Seq::empty(), head: 0, offset: 0, min_req_size: 1024 }),
            r.buf_model().wf(),
            r.spec_length_info() is None,
            r.spec_url() == url@,
            r.spec_client() == http_client,
    {
        SyncBufferedHttpRangeClient {
            http_client,
            url: url.to_owned(),
            buffer: HttpRangeBuffer::new(),
            length_info: None,
        }
    }

    /// Set minimal request size.
    pub fn set_min_req_size(&mut self, size: usize)
        ensures
            final(self).buf_model() == (BufModel {
                min_req_size: size as int,
                ..old(self).buf_model()
            }),
            final(self).spec_length_info() == old(self).spec_length_info(),
            old(self).same_session(*final(self)),
    {
        self.buffer.set_min_req_size(size);
    }

    /// Set minimal request size.
    pub fn min_req_size(&mut self, size: usize) -> (r: &mut SyncBufferedHttpRangeClient<T>)
        ensures
            (*r).buf_model() == (BufModel { min_req_size: size as int, ..old(self).buf_model() }),
            (*r).spec_length_info() == old(self).spec_length_info(),
            old(self).same_session(*r),
            *final(self) == *final(r),
    {
        self.set_min_req_size(size);
        self
    }

    /// Get `length` bytes with offset `begin`. Serves from the cached
    /// window when possible; otherwise plans a fetch, asks the fetcher for
    /// the planned `bytes=<start>-<end>` range, absorbs the result and
    /// serves the resident prefix, advancing the cursor past the served
    /// bytes. A fetch failure is propagated; the reader stays usable.
    pub fn get_range(&mut self, begin: usize, length: usize) -> (r: Result<&[u8], HttpError>)
        requires
            old(self).buf_model().wf(),
            begin + length <= usize::MAX,
            !old(self).buf_model().contains(begin as int, length as int)
                ==> begin + length + old(self).buf_model().min_req_size <= usize::MAX,
        ensures
            r matches Ok(bytes) ==> Self::get_range_post(
                *old(self),
                *final(self),
                begin as int,
                length as int,
                Ok(bytes@),
            ),
            r matches Err(e) ==> Self::get_range_post(
                *old(self),
                *final(self),
                begin as int,
                length as int,
                Err(e),
            ),
    {
        let ghost m0 = self.buffer@;
        let plan = self.buffer.get_request_range(begin, length);
        match plan {
            Some((range_begin, range_length)) => {
                let range = self.buffer.range(range_begin, range_length);
                match self.http_client.get_range(self.url.as_str(), range.as_str()) {
                    Ok(bytes) => {
                        let t = self.buffer.tail();
                        if bytes.len() > usize::MAX - t {
                            return Err(
                                HttpError::HttpError(
                                    "range response exceeds the addressable buffer".to_owned(),
                                ),
                            );
                        }
                        let ghost fetched = bytes@;
                        self.buffer.absorb(bytes);
                        proof {
                            assert(self.buffer@ =~= m0.reconcile(begin as int).absorb(fetched));
                            let pair = read_outcome(m0, begin as int, length as int, fetched);
                            assert(pair.0 =~= (BufModel {
                                offset: begin + self.buffer@.served_len(begin as int, length as int),
                                ..self.buffer@
                            }));
                            assert(pair.1 == self.buffer@.served(begin as int, length as int));
                        }
                        let out = self.buffer.slice(begin, length);
                        Ok(out)
                    },
                    Err(e) => Err(e),
                }
            },
            None => {
                proof {
                    let pair = read_outcome(m0, begin as int, length as int, Seq::empty());
                    assert(pair.0 =~= (BufModel {
                        offset: begin + self.buffer@.served_len(begin as int, length as int),
                        ..self.buffer@
                    }));
                    assert(pair.1 == self.buffer@.served(begin as int, length as int));
                }
                let out = self.buffer.slice(begin, length);
                Ok(out)
            },
        }
    }

    /// Get `length` bytes from the current cursor.
    pub fn get_bytes(&mut self, length: usize) -> (r: Result<&[u8], HttpError>)
        requires
            old(self).buf_model().wf(),
            old(self).buf_model().offset + length <= usize::MAX,
            !old(self).buf_model().contains(old(self).buf_model().offset, length as int)
                ==> old(self).buf_model().offset + length + old(self).buf_model().min_req_size
                <= usize::MAX,
        ensures
            r matches Ok(bytes) ==> Self::get_range_post(
                *old(self),
                *final(self),
                old(self).buf_model().offset,
                length as int,
                Ok(bytes@),
            ),
            r matches Err(e) ==> Self::get_range_post(
                *old(self),
                *final(self),
                old(self).buf_model().offset,
                length as int,
                Err(e),
            ),
    {
        let begin = self.buffer.offset();
        self.get_range(begin, length)
    }

    /// Send a HEAD request and return the response header value. Pure
    /// collaborator call: the outcome is whatever the fetcher returns.
    pub fn head_response_header(&self, header: &str) -> Result<Option<String>, HttpError> {
        self.http_client.head_response_header(self.url.as_str(), header)
    }

    /// Send a HEAD request and cache what its `content-length` header
    /// means (including "no header", to avoid repeated probing), as
    /// `interpret_content_length` fixes it: a present but non-numeric
    /// header is a parse error and caches nothing. What the probe itself
    /// returns is the fetcher's; its interpretation is fixed for every
    /// value by `content_length_outcome`.
    pub fn get_content_length(&mut self) -> (r: Result<Option<u64>, HttpError>)
        ensures
            final(self).buf_model() == old(self).buf_model(),
            old(self).same_session(*final(self)),
            r matches Ok(li) ==> final(self).spec_length_info() == Some(li),
            r is Err ==> final(self).spec_length_info() == old(self).spec_length_info(),
    {
        let header_val = match self.head_response_header("content-length") {
            Ok(v) => v,
            Err(e) => {
                return Err(e);
            },
        };
        let length_info = match interpret_content_length(header_val) {
            Ok(li) => li,
            Err(e) => {
                return Err(e);
            },
        };
        self.length_info = Some(length_info);
        Ok(length_info)
    }

    /// Read into the start of `buf`, delegating to `get_bytes` of `buf`'s
    /// length: the resident bytes replace the front of `buf`, the rest of
    /// `buf` is untouched, and the number of bytes actually written is
    /// returned. An HTTP 416 surfaces as `UnexpectedEof`; any other fetch
    /// failure as a generic error carrying the fetch error's message.
    pub fn read(&mut self, buf: &mut Vec<u8>) -> (r: Result<usize, IoError>)
        requires
            old(self).buf_model().wf(),
            old(self).buf_model().offset + old(buf)@.len() <= usize::MAX,
            !old(self).buf_model().contains(old(self).buf_model().offset, old(buf)@.len() as int)
                ==> old(self).buf_model().offset + old(buf)@.len()
                + old(self).buf_model().min_req_size <= usize::MAX,
        ensures
            final(self).buf_model().wf(),
            old(self).same_session(*final(self)),
            final(self).spec_length_info() == old(self).spec_length_info(),
            old(self).buf_model().contains(old(self).buf_model().offset, old(buf)@.len() as int)
                ==> r is Ok,
            r matches Ok(n) ==> ({
                let m1 = final(self).buf_model();
                let b = old(self).buf_model().offset;
                let len = old(buf)@.len() as int;
                let k = m1.served_len(b, len);
                &&& n == k
                &&& 0 <= k <= len
                &&& final(buf)@.len() == len
                &&& final(buf)@ == m1.served(b, len) + old(buf)@.subrange(k, len)
                &&& m1.offset == b + k
            }),
            r is Ok ==> Self::get_range_post(
                *old(self),
                *final(self),
                old(self).buf_model().offset,
                old(buf)@.len() as int,
                Ok(
                    final(self).buf_model().served(
                        old(self).buf_model().offset,
                        old(buf)@.len() as int,
                    ),
                ),
            ),
            r is Err ==> final(buf)@ == old(buf)@,
            r matches Err(x) ==> exists|e: HttpError|
                is_io_error_for(x, e) && #[trigger] Self::get_range_post(
                    *old(self),
                    *final(self),
                    old(self).buf_model().offset,
                    old(buf)@.len() as int,
                    Err(e),
                ),
    {
        let length = buf.len();
        match self.get_bytes(length) {
            Err(e) => {
                let x = io_error_for(&e);
                proof {
                    assert(is_io_error_for(x, e));
                }
                Err(x)
            },
            Ok(bytes) => {
                let ghost served = bytes@;
                let n = bytes.len();
                let mut out = vstd::slice::slice_to_vec(bytes);
                let mut i = n;
                while i < length
                    invariant
                        n <= i <= length,
                        buf@.len() == length,
                        out@ == served + buf@.subrange(n as int, i as int),
                        served.len() == n,
                    decreases length - i,
                {
                    out.push(buf[i]);
                    proof {
                        assert(out@ =~= served + buf@.subrange(n as int, i + 1));
                    }
                    i += 1;
                }
                proof {
                    assert(out@ =~= served + buf@.subrange(n as int, length as int));
                }
                *buf = out;
                Ok(n)
            },
        }
    }

    /// When the cursor lies outside the cached window, refill by reading
    /// `min_req_size` bytes at the cursor, treating an HTTP 416 as "no more
    /// data" (an empty slice, not an error) and resetting the cursor to the
    /// window's head; otherwise serve the resident bytes from the cursor.
    pub fn fill_buf(&mut self) -> (r: Result<&[u8], IoError>)
        requires
            old(self).buf_model().wf(),
            !(old(self).buf_model().head <= old(self).buf_model().offset
                < old(self).buf_model().tail())
                ==> old(self).buf_model().offset + 2 * old(self).buf_model().min_req_size
                <= usize::MAX,
        ensures
            final(self).buf_model().wf(),
            old(self).same_session(*final(self)),
            final(self).spec_length_info() == old(self).spec_length_info(),
            old(self).buf_model().head <= old(self).buf_model().offset
                < old(self).buf_model().tail() ==> r is Ok && *final(self) == *old(self),
            r matches Ok(s) ==> ({
                let m1 = final(self).buf_model();
                &&& m1.head <= m1.offset <= m1.tail()
                &&& s@ == m1.win.subrange(m1.offset - m1.head, m1.win.len() as int)
            }),
            !(old(self).buf_model().head <= old(self).buf_model().offset
                < old(self).buf_model().tail()) && r is Ok ==> final(self).buf_model().offset
                == final(self).buf_model().head,
            r is Err ==> final(self).buf_model() == old(self).buf_model().reconcile(
                old(self).buf_model().offset,
            ),
            r matches Err(x) ==> x is Other && (exists|e: HttpError| is_io_error_for(x, e)),
    {
        let off = self.buffer.offset();
        let h = self.buffer.head();
        let t = self.buffer.tail();
        if off >= t || off < h {
            let mrs = self.buffer.min_req_size();
            match self.get_bytes(mrs) {
                Err(e) => {
                    let eof = match &e {
                        HttpError::HttpStatus(code) => *code == 416,
                        _ => false,
                    };
                    if eof {
                        // An empty window indicates that the stream has
                        // reached EOF
                        let empty = self.buffer.window_suffix(off);
                        Ok(empty)
                    } else {
                        let err = IoError::Other(e.message());
                        proof {
                            assert(is_io_error_for(err, e));
                        }
                        Err(err)
                    }
                },
                Ok(_) => {
                    let new_head = self.buffer.head();
                    self.buffer.set_offset(new_head);
                    Ok(self.buffer.window_suffix(new_head))
                },
            }
        } else {
            Ok(self.buffer.window_suffix(off))
        }
    }

    /// Advance the cursor by `amt` without touching the window.
    pub fn consume(&mut self, amt: usize)
        requires
            old(self).buf_model().offset + amt <= usize::MAX,
        ensures
            final(self).buf_model() == (BufModel {
                offset: old(self).buf_model().offset + amt,
                ..old(self).buf_model()
            }),
            final(self).spec_length_info() == old(self).spec_length_info(),
            old(self).same_session(*final(self)),
    {
        let off = self.buffer.offset();
        self.buffer.set_offset(off + amt);
    }

    /// Move the cursor. `Start(p)` sets it unconditionally (an out-of-range
    /// position only manifests on the next fetch); `Current(d)` adds a
    /// signed delta, saturating rather than wrapping; `End(d)` needs the
    /// total resource length, probing `content-length` once and caching the
    /// outcome, and fails when no length is known. The window itself is
    /// never touched.
    pub fn seek(&mut self, pos: SeekFrom) -> (r: Result<u64, IoError>)
        requires
            old(self).buf_model().wf(),
        ensures
            final(self).buf_model().wf(),
            old(self).same_session(*final(self)),
            final(self).buf_model().win == old(self).buf_model().win,
            final(self).buf_model().head == old(self).buf_model().head,
            final(self).buf_model().min_req_size == old(self).buf_model().min_req_size,
            pos matches SeekFrom::Start(p) ==> ({
                &&& r == Ok::<u64, IoError>(p)
                &&& final(self).buf_model().offset == (p as usize) as int
                &&& final(self).spec_length_info() == old(self).spec_length_info()
            }),
            pos matches SeekFrom::Current(d) ==> ({
                &&& final(self).buf_model().offset == sat_add_signed(
                    old(self).buf_model().offset,
                    (d as isize) as int,
                )
                &&& r == Ok::<u64, IoError>(final(self).buf_model().offset as u64)
                &&& final(self).spec_length_info() == old(self).spec_length_info()
            }),
            pos matches SeekFrom::End(d) ==> ({
                &&& (old(self).spec_length_info() matches Some(li)
                    ==> final(self).spec_length_info() == Some(li))
                &&& (old(self).spec_length_info() matches Some(li) ==> (li matches Some(l) ==> ({
                    &&& final(self).buf_model().offset == ((sat_add_signed_u64(
                        l as int,
                        d as int,
                    ) as u64) as usize) as int
                    &&& r == Ok::<u64, IoError>(final(self).buf_model().offset as u64)
                })))
                &&& (old(self).spec_length_info() == Some(Option::<u64>::None) ==> ({
                    &&& (r matches Err(x) && x matches IoError::Other(m) && m@
                        == "SeekFrom::End failed - no content-length received"@)
                    &&& final(self).buf_model().offset == old(self).buf_model().offset
                }))
                &&& (old(self).spec_length_info() is None ==> ({
                    &&& (r matches Ok(v) ==> exists|l: u64|
                        {
                            &&& final(self).spec_length_info() == Some(Some(l))
                            &&& final(self).buf_model().offset == ((sat_add_signed_u64(
                                l as int,
                                d as int,
                            ) as u64) as usize) as int
                            &&& v == final(self).buf_model().offset as u64
                        })
                    &&& (r is Err
                        ==> final(self).buf_model().offset == old(self).buf_model().offset)
                    &&& (r matches Err(x) ==> x is Other)
                    &&& (final(self).spec_length_info() == Some(Option::<u64>::None) ==> (r
                        matches Err(x) && x matches IoError::Other(m) && m@
                        == "SeekFrom::End failed - no content-length received"@))
                }))
            }),
    {
        match pos {
            SeekFrom::Start(p) => {
                self.buffer.set_offset(p as usize);
                Ok(p)
            },
            SeekFrom::End(d) => {
                if self.length_info.is_none() {
                    // Read content-length with a HEAD request
                    match self.get_content_length() {
                        Ok(_) => {},
                        Err(e) => {
                            return Err(IoError::Other(e.message()));
                        },
                    }
                }
                match self.length_info {
                    Some(Some(length)) => {
                        let newo = sat_add_signed_u64_exec(length, d);
                        self.buffer.set_offset(newo as usize);
                        Ok(self.buffer.offset() as u64)
                    },
                    _ => Err(
                        IoError::Other("SeekFrom::End failed - no content-length received".to_owned()),
                    ),
                }
            },
            SeekFrom::Current(d) => {
                let off = self.buffer.offset();
                let newo = sat_add_signed_usize_exec(off, d as isize);
                self.buffer.set_offset(newo);
                Ok(newo as u64)
            },
        }
    }
}

} // verus!

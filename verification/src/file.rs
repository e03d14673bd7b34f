//! The read/seek state machine of a remote file served over HTTP.
//!
//! An `HttpFile` owns the cursor and the bookkeeping of one open handle:
//! which byte-range request is in flight, whether a chunk stream is being
//! drained, what was received but not yet delivered, what seek target is
//! pending, and how many transient-error retries are left. It never
//! touches the network itself: `poll_read` and `poll_complete` say what
//! the machine is waiting for, and an outside driver performs the request
//! or drains the stream and hands the outcome back through `read_event`
//! and `seek_request_resolved`.
//!
//! Every operation is specified against `Model`, the mathematical image
//! of the handle, through the step functions below.

use vstd::prelude::*;

use crate::chunk::chunk_bytes;
use crate::chunk::chunk_len;
use crate::chunk::chunk_slice;
use crate::chunk::chunk_to_vec;
use crate::meta::parse_content_length;
use crate::meta::spec_content_length;

verus! {

/// Retries allowed for one uninterrupted run of transient stream errors;
/// restored whenever a chunk is delivered.
pub const RETRY_LIMIT: u8 = 3;

/// A seek target, relative to the start, the current cursor, or the end
/// of the resource.
#[derive(Clone, Copy, Debug)]
pub enum SeekFrom {
    Start(u64),
    End(i64),
    Current(i64),
}

/// Why a seek target was rejected. No request is issued for a rejected
/// target.
#[derive(Clone, Copy, Debug, PartialEq, Eq)]
pub enum SeekError {
    /// The resolved target falls outside `0..=u64::MAX`.
    Unrepresentable,
    /// The target is relative to the end but the resource length is
    /// unknown.
    UnknownLength,
    /// The resolved target exceeds the known resource length.
    BeyondEnd,
}

/// A stream or request error, reduced to what the retry policy reads:
/// whether the transport timed out, and the response status if one came.
#[derive(Clone, Copy, Debug)]
pub struct StreamFault {
    pub timeout: bool,
    pub status: Option<u16>,
}

impl StreamFault {
    /// Transient faults are retried; all others are fatal at once.
    pub open spec fn transient(self) -> bool {
        self.timeout || (self.status matches Some(s) && 500 <= s < 600)
    }

    /// A fault is transient exactly when it is a timeout or a server-side
    /// error status.
    pub fn is_transient(&self) -> (r: bool)
        ensures
            r == self.transient(),
    {
        if self.timeout {
            return true;
        }
        match self.status {
            Some(s) => 500 <= s && s < 600,
            None => false,
        }
    }
}

/// The mathematical image of an `HttpFile`.
#[verifier::ext_equal]
pub ghost struct Model {
    /// Resolved resource locator.
    pub url: Seq<char>,
    /// Resource length, when the probe reported a usable one.
    pub content_length: Option<u64>,
    /// Opaque change identifier, informational only.
    pub etag: Option<Seq<char>>,
    /// Content type, informational only.
    pub mime: Option<Seq<char>>,
    /// The logical cursor: where the next read begins.
    pub pos: u64,
    /// Offset of the byte-range request in flight, if any.
    pub request: Option<u64>,
    /// Whether a chunk stream is active.
    pub response: bool,
    /// Bytes received but not yet delivered to the caller.
    pub last_chunk: Option<Seq<u8>>,
    /// Seek target recorded but not yet reconciled with the cursor.
    pub seek: Option<u64>,
    /// Transient-error retries left for the current streaming attempt.
    pub retry_attempt: u8,
}

/// What `poll_read` asks of the driver.
pub ghost enum ReadDemand {
    /// Bytes (possibly none, at end of data) ready for the caller.
    Deliver(Seq<u8>),
    /// Wait for the range request at this offset to resolve.
    AwaitRequest(u64),
    /// Wait for the next chunk of the active stream.
    AwaitChunk,
}

/// What `poll_complete` asks of the driver.
pub ghost enum SeekDemand {
    /// The seek is complete; the cursor stands here.
    Done(u64),
    /// Wait for the range request at this offset to resolve.
    AwaitRequest(u64),
}

impl Model {
    /// The invariant every operation preserves.
    pub open spec fn wf(self) -> bool {
        &&& (self.content_length matches Some(l) ==> l > 0 && self.pos <= l)
        &&& (self.last_chunk matches Some(b) ==> b.len() > 0)
        &&& self.retry_attempt <= RETRY_LIMIT
        &&& !(self.request is Some && self.response)
        &&& (self.seek matches Some(t) ==> (self.content_length matches Some(l) ==> t <= l))
    }

    /// The cursor stands at or past the known end of the resource.
    pub open spec fn at_eof(self) -> bool {
        self.content_length matches Some(l) && self.pos >= l
    }

    /// How many bytes may still be delivered without carrying the cursor
    /// past the known length (or past `u64::MAX` when none is known).
    pub open spec fn avail(self) -> int {
        match self.content_length {
            Some(l) => l - self.pos,
            None => u64::MAX - self.pos,
        }
    }

    /// How many bytes of an `n`-byte chunk a read with capacity `cap`
    /// delivers.
    pub open spec fn take_len(self, n: int, cap: int) -> int {
        let t = if n <= cap {
            n
        } else {
            cap
        };
        if t <= self.avail() {
            t
        } else {
            self.avail()
        }
    }

    /// Delivery of a received chunk: the first `take_len` bytes go to the
    /// caller, the cursor advances by as much, and the rest is retained.
    pub open spec fn step_deliver(self, c: Seq<u8>, cap: int) -> (Model, Seq<u8>) {
        let take = self.take_len(c.len() as int, cap);
        let m = Model {
            pos: (self.pos + take) as u64,
            last_chunk: if take < c.len() {
                Some(c.subrange(take, c.len() as int))
            } else {
                None
            },
            ..self
        };
        (m, c.subrange(0, take))
    }

    /// One poll of the read operation.
    pub open spec fn step_poll_read(self, cap: int) -> (Model, ReadDemand) {
        if self.at_eof() {
            (self, ReadDemand::Deliver(Seq::empty()))
        } else {
            match self.last_chunk {
                Some(b) => {
                    let (m, data) = Model { last_chunk: None, ..self }.step_deliver(b, cap);
                    (m, ReadDemand::Deliver(data))
                },
                None => match self.request {
                    Some(t) => (self, ReadDemand::AwaitRequest(t)),
                    None => if self.response {
                        (self, ReadDemand::AwaitChunk)
                    } else {
                        (Model { request: Some(self.pos), ..self }, ReadDemand::AwaitRequest(self.pos))
                    },
                },
            }
        }
    }

    /// A pending range request resolved to a stream.
    pub open spec fn step_request_ok(self) -> Model {
        Model { request: None, response: true, ..self }
    }

    /// A pending range request failed: retried (budget spent, request
    /// dropped, so the next poll reissues at the cursor) exactly when
    /// the fault is transient and budget remains, otherwise fatal.
    pub open spec fn step_request_error(self, f: StreamFault) -> (Model, bool) {
        if f.transient() && self.retry_attempt > 0 {
            (
                Model {
                    request: None,
                    retry_attempt: (self.retry_attempt - 1) as u8,
                    ..self
                },
                true,
            )
        } else {
            (Model { request: None, ..self }, false)
        }
    }

    /// A chunk arrived: deliver it and restore the retry budget.
    pub open spec fn step_chunk(self, c: Seq<u8>, cap: int) -> (Model, Seq<u8>) {
        let (m, data) = self.step_deliver(c, cap);
        (Model { retry_attempt: RETRY_LIMIT, ..m }, data)
    }

    /// A stream error: retried (budget spent, stream discarded) exactly
    /// when it is transient and budget remains, otherwise fatal.
    pub open spec fn step_stream_error(self, f: StreamFault) -> (Model, bool) {
        if f.transient() && self.retry_attempt > 0 {
            (
                Model {
                    retry_attempt: (self.retry_attempt - 1) as u8,
                    response: false,
                    ..self
                },
                true,
            )
        } else {
            (self, false)
        }
    }

    /// The absolute offset a seek target resolves to, or why it is
    /// rejected. Resolution reads only local state.
    pub open spec fn seek_target(self, from: SeekFrom) -> Result<u64, SeekError> {
        match from {
            SeekFrom::Start(n) => {
                if self.content_length matches Some(l) && n > l {
                    Err(SeekError::BeyondEnd)
                } else {
                    Ok(n)
                }
            },
            SeekFrom::End(n) => {
                match self.content_length {
                    Some(l) => {
                        let t = l + n;
                        if t < 0 || t > u64::MAX {
                            Err(SeekError::Unrepresentable)
                        } else if t > l {
                            Err(SeekError::BeyondEnd)
                        } else {
                            Ok(t as u64)
                        }
                    },
                    None => Err(SeekError::UnknownLength),
                }
            },
            SeekFrom::Current(n) => {
                if n == 0 {
                    Ok(self.pos)
                } else {
                    let t = self.pos + n;
                    if t < 0 || t > u64::MAX {
                        Err(SeekError::Unrepresentable)
                    } else if self.content_length matches Some(l) && t > l {
                        Err(SeekError::BeyondEnd)
                    } else {
                        Ok(t as u64)
                    }
                }
            },
        }
    }

    /// Recording a seek: a resolvable target is remembered, a rejected
    /// one changes nothing.
    pub open spec fn step_start_seek(self, from: SeekFrom) -> Model {
        match self.seek_target(from) {
            Ok(t) => Model { seek: Some(t), ..self },
            Err(_) => self,
        }
    }

    /// One poll of seek completion.
    pub open spec fn step_poll_complete(self) -> (Model, SeekDemand) {
        match self.seek {
            None => (self, SeekDemand::Done(self.pos)),
            Some(t) => {
                if t == self.pos {
                    (Model { seek: None, ..self }, SeekDemand::Done(self.pos))
                } else if self.content_length matches Some(l) && t >= l {
                    (
                        Model {
                            pos: t,
                            seek: None,
                            request: None,
                            response: false,
                            last_chunk: None,
                            ..self
                        },
                        SeekDemand::Done(t),
                    )
                } else if self.request == Some(t) {
                    (self, SeekDemand::AwaitRequest(t))
                } else {
                    (
                        Model {
                            request: Some(t),
                            response: false,
                            last_chunk: None,
                            ..self
                        },
                        SeekDemand::AwaitRequest(t),
                    )
                }
            },
        }
    }

    /// The request a seek waited on resolved (to a stream, or not).
    pub open spec fn step_seek_resolved(self, ok: bool) -> Model {
        if ok {
            Model {
                pos: self.seek.unwrap(),
                seek: None,
                request: None,
                response: true,
                last_chunk: None,
                ..self
            }
        } else {
            Model { request: None, ..self }
        }
    }
}

/// What the driver reports back to a read in progress.
pub enum ReadEvent {
    /// The awaited range request resolved to a stream.
    RequestOk,
    /// The awaited range request failed.
    RequestErr(StreamFault),
    /// The active stream yielded a chunk.
    Chunk(bytes::Bytes),
    /// The active stream ended.
    StreamEnd,
    /// The active stream yielded an error.
    StreamErr(StreamFault),
}

/// What a read does with a driver report.
#[derive(Debug)]
pub enum ReadStep {
    /// Bytes for the caller; none means end of data.
    Data(Vec<u8>),
    /// Poll `poll_read` again.
    Again,
    /// The read fails; the driver wraps the underlying cause.
    Fail(StreamFault),
}

/// What `poll_read` returns to the driver.
#[derive(Debug)]
pub enum ReadPoll {
    /// Bytes for the caller; none means end of data.
    Ready(Vec<u8>),
    /// A range request at this offset must resolve first.
    AwaitRequest(u64),
    /// The next chunk of the active stream must arrive first.
    AwaitChunk,
}

/// What `poll_complete` returns to the driver.
#[derive(Clone, Copy, Debug, PartialEq, Eq)]
pub enum SeekPoll {
    /// The seek is complete; the cursor stands here.
    Ready(u64),
    /// A range request at this offset must resolve first.
    AwaitRequest(u64),
}

/// One open handle onto a remote resource, driven by polls and events.
pub struct HttpFile {
    url: String,
    content_length: Option<u64>,
    etag: Option<String>,
    mime: Option<String>,
    pos: u64,
    request: Option<u64>,
    response: bool,
    last_chunk: Option<bytes::Bytes>,
    seek: Option<u64>,
    retry_attempt: u8,
}

impl View for HttpFile {
    type V = Model;

    closed spec fn view(&self) -> Model {
        Model {
            url: self.url@,
            content_length: self.content_length,
            etag: match self.etag {
                Some(s) => Some(s@),
                None => None,
            },
            mime: match self.mime {
                Some(s) => Some(s@),
                None => None,
            },
            pos: self.pos,
            request: self.request,
            response: self.response,
            last_chunk: match self.last_chunk {
                Some(b) => Some(chunk_bytes(b)),
                None => None,
            },
            seek: self.seek,
            retry_attempt: self.retry_attempt,
        }
    }
}

impl HttpFile {
    /// Open a handle from what the metadata probe reported: the resolved
    /// URL, the raw length header if one came, and the optional change
    /// identifier and content type. The cursor starts at zero with no
    /// network activity recorded.
    pub fn new(
        url: String,
        content_length_header: Option<&[u8]>,
        etag: Option<String>,
        mime: Option<String>,
    ) -> (r: HttpFile)
        ensures
            r@ == (Model {
                url: url@,
                content_length: match content_length_header {
                    Some(h) => spec_content_length(h@),
                    None => None,
                },
                etag: match etag {
                    Some(s) => Some(s@),
                    None => None,
                },
                mime: match mime {
                    Some(s) => Some(s@),
                    None => None,
                },
                pos: 0,
                request: None,
                response: false,
                last_chunk: None,
                seek: None,
                retry_attempt: RETRY_LIMIT,
            }),
            r@.wf(),
    {
        let content_length = match content_length_header {
            Some(h) => parse_content_length(h),
            None => None,
        };
        HttpFile {
            url,
            content_length,
            etag,
            mime,
            pos: 0,
            request: None,
            response: false,
            last_chunk: None,
            seek: None,
            retry_attempt: RETRY_LIMIT,
        }
    }

    /// The resolved URL of the resource.
    pub fn url(&self) -> (r: &String)
        ensures
            r@ == self@.url,
    {
        &self.url
    }

    /// The resource length in bytes, when known.
    pub fn content_length(&self) -> (r: Option<u64>)
        ensures
            r == self@.content_length,
    {
        self.content_length
    }

    /// The change identifier of the resource, when one was reported.
    pub fn etag(&self) -> (r: Option<&str>)
        ensures
            match r {
                Some(s) => self@.etag == Some(s@),
                None => self@.etag is None,
            },
    {
        match &self.etag {
            Some(s) => Some(s.as_str()),
            None => None,
        }
    }

    /// The content type of the resource, when one was reported.
    pub fn mime(&self) -> (r: Option<&str>)
        ensures
            match r {
                Some(s) => self@.mime == Some(s@),
                None => self@.mime is None,
            },
    {
        match &self.mime {
            Some(s) => Some(s.as_str()),
            None => None,
        }
    }

    /// The current cursor: where the next read begins. A pure read of
    /// local state; no network activity is demanded or recorded.
    pub fn position(&self) -> (r: u64)
        ensures
            r == self@.pos,
    {
        self.pos
    }

    /// Deliver up to `capacity` bytes of `chunk`, advance the cursor and
    /// retain the remainder.
    fn deliver_chunk(&mut self, chunk: &bytes::Bytes, capacity: usize) -> (data: Vec<u8>)
        requires
            old(self)@.last_chunk is None,
            old(self)@.content_length matches Some(l) ==> old(self)@.pos <= l,
        ensures
            ({
                let (m, bs) = old(self)@.step_deliver(chunk_bytes(*chunk), capacity as int);
                final(self)@ == m && data@ == bs
            }),
    {
        let clen = chunk_len(chunk);
        let avail64: u64 = match self.content_length {
            Some(l) => l - self.pos,
            None => u64::MAX - self.pos,
        };
        let mut take: usize = if clen < capacity {
            clen
        } else {
            capacity
        };
        if avail64 < take as u64 {
            assert(avail64 <= usize::MAX as u64);
            take = avail64 as usize;
        }
        assert(take as int == self@.take_len(chunk_bytes(*chunk).len() as int, capacity as int));
        let data = chunk_to_vec(&chunk_slice(chunk, 0, take));
        self.pos = self.pos + take as u64;
        if take < clen {
            self.last_chunk = Some(chunk_slice(chunk, take, clen));
        }
        data
    }

    /// One poll of a read with the caller's buffer capacity. Either bytes
    /// are ready at once — at end of data (none), or from the retained
    /// chunk — or the driver is told what to wait for, a fresh range
    /// request at the cursor being recorded first if nothing is underway.
    pub fn poll_read(&mut self, capacity: usize) -> (r: ReadPoll)
        requires
            old(self)@.wf(),
        ensures
            final(self)@.wf(),
            ({
                let (m, d) = old(self)@.step_poll_read(capacity as int);
                final(self)@ == m && (match r {
                    ReadPoll::Ready(data) => d matches ReadDemand::Deliver(bs) && data@ == bs,
                    ReadPoll::AwaitRequest(t) => d == ReadDemand::AwaitRequest(t),
                    ReadPoll::AwaitChunk => d == ReadDemand::AwaitChunk,
                })
            }),
    {
        if let Some(l) = self.content_length {
            if self.pos >= l {
                return ReadPoll::Ready(Vec::new());
            }
        }
        if let Some(b) = self.last_chunk.take() {
            let data = self.deliver_chunk(&b, capacity);
            return ReadPoll::Ready(data);
        }
        if let Some(t) = self.request {
            return ReadPoll::AwaitRequest(t);
        }
        if self.response {
            return ReadPoll::AwaitChunk;
        }
        self.request = Some(self.pos);
        ReadPoll::AwaitRequest(self.pos)
    }

    /// Apply what the driver reports back to a read in progress: a
    /// resolved request, a chunk, the end of the stream, or a failure —
    /// of the request or of the stream — put to the retry policy.
    pub fn read_event(&mut self, ev: ReadEvent, capacity: usize) -> (r: ReadStep)
        requires
            old(self)@.wf(),
            (ev matches ReadEvent::RequestOk || ev matches ReadEvent::RequestErr(_)) ==> old(
                self,
            )@.request is Some && !old(self)@.response,
            (ev matches ReadEvent::Chunk(_) || ev matches ReadEvent::StreamEnd || ev
                matches ReadEvent::StreamErr(_)) ==> old(self)@.response && old(
                self,
            )@.last_chunk is None,
        ensures
            final(self)@.wf(),
            ({
                let m0 = old(self)@;
                match ev {
                    ReadEvent::RequestOk => final(self)@ == m0.step_request_ok() && (r
                        matches ReadStep::Again),
                    ReadEvent::RequestErr(f) => {
                        let (m, retry) = m0.step_request_error(f);
                        final(self)@ == m && if retry {
                            r matches ReadStep::Again
                        } else {
                            r matches ReadStep::Fail(g) && g == f
                        }
                    },
                    ReadEvent::Chunk(c) => {
                        let (m, bs) = m0.step_chunk(chunk_bytes(c), capacity as int);
                        final(self)@ == m && (r matches ReadStep::Data(d) && d@ == bs)
                    },
                    ReadEvent::StreamEnd => final(self)@ == m0 && (r matches ReadStep::Data(d)
                        && d@ == Seq::<u8>::empty()),
                    ReadEvent::StreamErr(f) => {
                        let (m, retry) = m0.step_stream_error(f);
                        final(self)@ == m && if retry {
                            r matches ReadStep::Again
                        } else {
                            r matches ReadStep::Fail(g) && g == f
                        }
                    },
                }
            }),
    {
        match ev {
            ReadEvent::RequestOk => {
                self.request = None;
                self.response = true;
                ReadStep::Again
            },
            ReadEvent::RequestErr(f) => {
                self.request = None;
                if self.retry_attempt > 0 && f.is_transient() {
                    self.retry_attempt = self.retry_attempt - 1;
                    ReadStep::Again
                } else {
                    ReadStep::Fail(f)
                }
            },
            ReadEvent::Chunk(c) => {
                let data = self.deliver_chunk(&c, capacity);
                self.retry_attempt = RETRY_LIMIT;
                ReadStep::Data(data)
            },
            ReadEvent::StreamEnd => ReadStep::Data(Vec::new()),
            ReadEvent::StreamErr(f) => {
                if self.retry_attempt > 0 && f.is_transient() {
                    self.retry_attempt = self.retry_attempt - 1;
                    self.response = false;
                    ReadStep::Again
                } else {
                    ReadStep::Fail(f)
                }
            },
        }
    }

    /// Record a seek. The target is resolved against local state alone;
    /// a rejected target changes nothing and issues nothing.
    pub fn start_seek(&mut self, from: SeekFrom) -> (r: Result<(), SeekError>)
        requires
            old(self)@.wf(),
        ensures
            final(self)@.wf(),
            final(self)@ == old(self)@.step_start_seek(from),
            match old(self)@.seek_target(from) {
                Ok(_) => r matches Ok(()),
                Err(e) => r matches Err(e2) && e2 == e,
            },
    {
        match from {
            SeekFrom::Start(n) => {
                if let Some(l) = self.content_length {
                    if n > l {
                        return Err(SeekError::BeyondEnd);
                    }
                }
                self.seek = Some(n);
                Ok(())
            },
            SeekFrom::End(n) => {
                if let Some(l) = self.content_length {
                    let t: i128 = l as i128 + n as i128;
                    if t < 0 || t > u64::MAX as i128 {
                        return Err(SeekError::Unrepresentable);
                    }
                    let t64: u64 = t as u64;
                    if t64 > l {
                        return Err(SeekError::BeyondEnd);
                    }
                    self.seek = Some(t64);
                    Ok(())
                } else {
                    Err(SeekError::UnknownLength)
                }
            },
            SeekFrom::Current(n) => {
                if n == 0 {
                    self.seek = Some(self.pos);
                    return Ok(());
                }
                let t: i128 = self.pos as i128 + n as i128;
                if t < 0 || t > u64::MAX as i128 {
                    return Err(SeekError::Unrepresentable);
                }
                let t64: u64 = t as u64;
                if let Some(l) = self.content_length {
                    if t64 > l {
                        return Err(SeekError::BeyondEnd);
                    }
                }
                self.seek = Some(t64);
                Ok(())
            },
        }
    }

    /// One poll of seek completion. With no pending seek, or one already
    /// at the cursor, it reports the cursor at once. A target at or past
    /// the known end moves the cursor and discards all network state
    /// without issuing anything. Any other target discards the current
    /// stream and retained chunk and waits on a range request at the
    /// target, reusing one already in flight for exactly that offset.
    pub fn poll_complete(&mut self) -> (r: SeekPoll)
        requires
            old(self)@.wf(),
        ensures
            final(self)@.wf(),
            ({
                let (m, d) = old(self)@.step_poll_complete();
                final(self)@ == m && (match r {
                    SeekPoll::Ready(p) => d == SeekDemand::Done(p),
                    SeekPoll::AwaitRequest(t) => d == SeekDemand::AwaitRequest(t),
                })
            }),
    {
        let t = match self.seek {
            None => {
                return SeekPoll::Ready(self.pos);
            },
            Some(t) => t,
        };
        if t == self.pos {
            self.seek = None;
            return SeekPoll::Ready(self.pos);
        }
        if let Some(l) = self.content_length {
            if t >= l {
                self.pos = t;
                self.seek = None;
                self.request = None;
                self.response = false;
                self.last_chunk = None;
                return SeekPoll::Ready(t);
            }
        }
        let in_flight = match self.request {
            Some(rt) => rt == t,
            None => false,
        };
        if !in_flight {
            self.request = Some(t);
            self.response = false;
            self.last_chunk = None;
        }
        SeekPoll::AwaitRequest(t)
    }

    /// The request a seek waited on resolved. On success the cursor moves
    /// to the target, the seek is cleared and the fresh stream becomes
    /// active; the new position is returned. On failure only the request
    /// is dropped — the seek stays recorded, and the driver surfaces the
    /// failure.
    pub fn seek_request_resolved(&mut self, ok: bool) -> (r: Option<u64>)
        requires
            old(self)@.wf(),
            old(self)@.seek matches Some(t) && old(self)@.request == Some(t),
            !old(self)@.response,
        ensures
            final(self)@.wf(),
            final(self)@ == old(self)@.step_seek_resolved(ok),
            ok ==> r == Some(old(self)@.seek.unwrap()),
            !ok ==> r is None,
    {
        if ok {
            let t = self.seek.unwrap();
            self.pos = t;
            self.seek = None;
            self.request = None;
            self.response = true;
            self.last_chunk = None;
            Some(t)
        } else {
            self.request = None;
            None
        }
    }
}

} // verus!

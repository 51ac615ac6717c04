//! The byte window of an HTTP audio stream.
//!
//! A download worker appends what it receives to a [`StreamBuffer`]; the
//! decoder reads through an [`HttpStreamSource`], a cursor over the remote
//! file. The functions here decide what a read or a seek does with the
//! bytes at hand: copy, wait for the worker, or ask for a new ranged
//! request. Sockets, threads and locks belong to the caller.

use vstd::prelude::*;
use crate::text::{decimal, push_decimal};

verus! {

/// Bytes that must be buffered before playback starts, and the widest gap a
/// forward seek leaves to the running download.
pub const PRE_BUFFER: usize = 131072;

/// Bytes asked from the network per read.
pub const READ_CHUNK: usize = 65536;

/// What the download worker shares with the reader.
pub struct StreamBuffer {
    data: Vec<u8>,
    data_start: u64,
    done: bool,
    error: Option<String>,
    abort: bool,
}

/// Why a stream could not be opened, reopened or repositioned.
#[derive(Debug, Clone, PartialEq, Eq)]
pub enum StreamError {
    /// The first request was answered with a status other than 200 or 206.
    Status(u16),
    /// A ranged request was answered with a status other than 200 or 206.
    RangeStatus(u16),
    /// The worker failed while the first bytes were awaited.
    PreBuffer(String),
    /// A seek resolved to an offset below zero or past the signed range.
    NegativePosition,
}

impl StreamBuffer {
    /// The window lies within the 64-bit offsets of the remote file.
    pub closed spec fn wf(&self) -> bool {
        self.data_start + self.data@.len() <= u64::MAX
    }

    /// The bytes received so far.
    pub closed spec fn bytes(&self) -> Seq<u8> {
        self.data@
    }

    /// Offset in the remote file of the first buffered byte.
    pub closed spec fn start(&self) -> u64 {
        self.data_start
    }

    /// Offset in the remote file just past the last buffered byte.
    pub open spec fn end(&self) -> int {
        self.start() + self.bytes().len()
    }

    /// The worker has stopped, at the end of the body or on an error.
    pub closed spec fn finished(&self) -> bool {
        self.done
    }

    /// The worker's failure, if it had one.
    pub closed spec fn failure(&self) -> Option<Seq<char>> {
        match self.error {
            Some(e) => Some(e@),
            None => None,
        }
    }

    /// The reader has asked the worker to stop.
    pub closed spec fn aborted(&self) -> bool {
        self.abort
    }

    /// Enough is buffered to start probing, or nothing more will come.
    pub open spec fn prebuffered(&self) -> bool {
        self.bytes().len() >= PRE_BUFFER || self.finished() || self.failure().is_some()
    }

    /// An empty buffer whose first byte will be remote byte `data_start`.
    pub fn new(data_start: u64) -> (buffer: StreamBuffer)
        ensures
            buffer.wf(),
            buffer.bytes() == Seq::<u8>::empty(),
            buffer.start() == data_start,
            !buffer.finished(),
            buffer.failure().is_none(),
            !buffer.aborted(),
    {
        StreamBuffer { data: Vec::new(), data_start, done: false, error: None, abort: false }
    }

    pub fn data_start(&self) -> (start: u64)
        ensures
            start == self.start(),
    {
        self.data_start
    }

    pub fn len(&self) -> (n: usize)
        ensures
            n == self.bytes().len(),
    {
        self.data.len()
    }

    pub fn buf_end(&self) -> (end: u64)
        requires
            self.wf(),
        ensures
            end == self.end(),
    {
        self.data_start + self.data.len() as u64
    }

    pub fn is_done(&self) -> (done: bool)
        ensures
            done == self.finished(),
    {
        self.done
    }

    pub fn is_aborted(&self) -> (abort: bool)
        ensures
            abort == self.aborted(),
    {
        self.abort
    }

    pub fn has_error(&self) -> (failed: bool)
        ensures
            failed == self.failure().is_some(),
    {
        self.error.is_some()
    }

    /// The condition the opener waits for before it hands the stream on.
    pub fn is_prebuffered(&self) -> (ready: bool)
        ensures
            ready == self.prebuffered(),
    {
        self.data.len() >= PRE_BUFFER || self.done || self.error.is_some()
    }

    /// Worker: a chunk has arrived. It is appended unless the reader has
    /// abandoned this buffer; the result says whether the worker goes on.
    pub fn push_chunk(&mut self, chunk: &[u8]) -> (go_on: bool)
        requires
            old(self).wf(),
            old(self).end() + chunk@.len() <= u64::MAX,
        ensures
            final(self).wf(),
            go_on == !old(self).aborted(),
            final(self).start() == old(self).start(),
            final(self).finished() == old(self).finished(),
            final(self).failure() == old(self).failure(),
            final(self).aborted() == old(self).aborted(),
            final(self).bytes() == if old(self).aborted() {
                old(self).bytes()
            } else {
                old(self).bytes() + chunk@
            },
    {
        if self.abort {
            return false;
        }
        self.data.extend_from_slice(chunk);
        true
    }

    /// Worker: the body has ended.
    pub fn finish(&mut self)
        requires
            old(self).wf(),
        ensures
            final(self).wf(),
            final(self).finished(),
            final(self).start() == old(self).start(),
            final(self).bytes() == old(self).bytes(),
            final(self).failure() == old(self).failure(),
            final(self).aborted() == old(self).aborted(),
    {
        self.done = true;
    }

    /// Worker: the transfer failed. The buffer is finished and keeps the
    /// message.
    pub fn fail(&mut self, message: String)
        requires
            old(self).wf(),
        ensures
            final(self).wf(),
            final(self).finished(),
            final(self).failure() == Some(message@),
            final(self).start() == old(self).start(),
            final(self).bytes() == old(self).bytes(),
            final(self).aborted() == old(self).aborted(),
    {
        self.error = Some(message);
        self.done = true;
    }

    /// Reader: tell the worker to stop at its next check.
    pub fn request_abort(&mut self)
        requires
            old(self).wf(),
        ensures
            final(self).wf(),
            final(self).aborted(),
            final(self).start() == old(self).start(),
            final(self).bytes() == old(self).bytes(),
            final(self).finished() == old(self).finished(),
            final(self).failure() == old(self).failure(),
    {
        self.abort = true;
    }

    /// The failure of the first wait, if the worker reported one.
    pub fn prebuffer_error(&self) -> (r: Option<StreamError>)
        ensures
            match r {
                Some(StreamError::PreBuffer(m)) => self.failure() == Some(m@),
                Some(_) => false,
                None => self.failure().is_none(),
            },
    {
        match &self.error {
            Some(e) => Some(StreamError::PreBuffer(e.clone())),
            None => None,
        }
    }
}


/// What one read from the network brought the download worker.
#[derive(Debug)]
pub enum Download<'a> {
    /// Bytes of the body.
    Chunk(&'a [u8]),
    /// The body has ended.
    End,
    /// The read was interrupted and is to be repeated.
    Interrupted,
    /// The read failed.
    Failed(String),
}

/// What the download worker does after a read.
#[derive(Clone, Copy, Debug, PartialEq, Eq, Structural)]
pub struct WorkerStep {
    /// The worker reads again; otherwise it ends.
    pub go_on: bool,
    /// The reader is woken.
    pub notify: bool,
}

impl StreamBuffer {
    /// Worker: one turn of the download loop. Bytes are appended and the
    /// reader woken, unless the buffer was abandoned, which ends the
    /// worker silently; the end of the body and a failure finish the
    /// buffer, wake the reader and end the worker; an interrupted read is
    /// repeated.
    pub fn absorb(&mut self, event: Download<'_>) -> (step: WorkerStep)
        requires
            old(self).wf(),
            event matches Download::Chunk(chunk) ==> old(self).end() + chunk@.len() <= u64::MAX,
        ensures
            final(self).wf(),
            final(self).start() == old(self).start(),
            final(self).aborted() == old(self).aborted(),
            match event {
                Download::Chunk(chunk) => {
                    &&& step == (WorkerStep {
                        go_on: !old(self).aborted(),
                        notify: !old(self).aborted(),
                    })
                    &&& final(self).bytes() == if old(self).aborted() {
                        old(self).bytes()
                    } else {
                        old(self).bytes() + chunk@
                    }
                    &&& final(self).finished() == old(self).finished()
                    &&& final(self).failure() == old(self).failure()
                },
                Download::End => {
                    &&& step == (WorkerStep { go_on: false, notify: true })
                    &&& final(self).bytes() == old(self).bytes()
                    &&& final(self).finished()
                    &&& final(self).failure() == old(self).failure()
                },
                Download::Interrupted => {
                    &&& step == (WorkerStep { go_on: true, notify: false })
                    &&& final(self).bytes() == old(self).bytes()
                    &&& final(self).finished() == old(self).finished()
                    &&& final(self).failure() == old(self).failure()
                },
                Download::Failed(message) => {
                    &&& step == (WorkerStep { go_on: false, notify: true })
                    &&& final(self).bytes() == old(self).bytes()
                    &&& final(self).finished()
                    &&& final(self).failure() == Some(message@)
                },
            },
    {
        match event {
            Download::Chunk(chunk) => {
                let go_on = self.push_chunk(chunk);
                WorkerStep { go_on, notify: go_on }
            },
            Download::End => {
                self.finish();
                WorkerStep { go_on: false, notify: true }
            },
            Download::Interrupted => WorkerStep { go_on: true, notify: false },
            Download::Failed(message) => {
                self.fail(message);
                WorkerStep { go_on: false, notify: true }
            },
        }
    }
}

impl StreamBuffer {
    /// Reader: decides on the answer to a ranged request for the bytes from
    /// `offset` on. Where the server hands out a body (status 200 or 206),
    /// this buffer is abandoned, so that its worker ends, and a fresh one
    /// takes its place: it starts at `offset` where the range was honoured
    /// (206) and at zero where the server sends the file from its beginning
    /// (200). With any other status nothing changes: this buffer stays in
    /// use and its download goes on.
    pub fn reopen(&mut self, status: u16, offset: u64) -> (r: Result<StreamBuffer, StreamError>)
        requires
            old(self).wf(),
        ensures
            final(self).wf(),
            final(self).start() == old(self).start(),
            final(self).bytes() == old(self).bytes(),
            final(self).finished() == old(self).finished(),
            final(self).failure() == old(self).failure(),
            match r {
                Ok(fresh) => {
                    &&& status_accepted(status)
                    &&& final(self).aborted()
                    &&& fresh.wf()
                    &&& fresh.start() == if status == 206 {
                        offset
                    } else {
                        0
                    }
                    &&& fresh.bytes() == Seq::<u8>::empty()
                    &&& !fresh.finished()
                    &&& fresh.failure().is_none()
                    &&& !fresh.aborted()
                },
                Err(e) => {
                    &&& !status_accepted(status)
                    &&& e == StreamError::RangeStatus(status)
                    &&& final(self).aborted() == old(self).aborted()
                },
            },
    {
        match reopened_start(status, offset) {
            Ok(start) => {
                self.request_abort();
                Ok(StreamBuffer::new(start))
            },
            Err(e) => Err(e),
        }
    }
}

/// A status with which the server hands out a body.
pub open spec fn status_accepted(status: u16) -> bool {
    status == 200 || status == 206
}

/// The value of a decimal digit, if `c` is one.
pub open spec fn digit_value(c: char) -> Option<nat> {
    if '0' <= c && c <= '9' {
        Some((c as nat - '0' as nat) as nat)
    } else {
        None
    }
}

/// The number that a non-empty run of decimal digits writes, if every
/// character is a digit.
pub open spec fn digits_value(s: Seq<char>) -> Option<nat>
    decreases s.len(),
{
    if s.len() == 0 {
        None
    } else if s.len() == 1 {
        digit_value(s[0])
    } else {
        match (digits_value(s.drop_last()), digit_value(s.last())) {
            (Some(v), Some(d)) => Some(v * 10 + d),
            _ => None,
        }
    }
}

/// A numeral without its optional leading plus sign.
pub open spec fn unsigned_part(text: Seq<char>) -> Seq<char> {
    if text.len() > 0 && text[0] == '+' {
        text.subrange(1, text.len() as int)
    } else {
        text
    }
}

/// The length that a `Content-Length` value announces: its digits, with an
/// optional leading plus sign, read as a number that fits 64 bits. Anything
/// else, and a missing header, count as zero: length unknown.
pub open spec fn announced_length(header: Option<Seq<char>>) -> u64 {
    match header {
        None => 0,
        Some(text) => {
            match digits_value(unsigned_part(text)) {
                Some(v) => if v <= u64::MAX {
                    v as u64
                } else {
                    0
                },
                None => 0,
            }
        },
    }
}

proof fn lemma_digits_value_step(s: Seq<char>)
    requires
        s.len() > 0,
        digits_value(s.drop_last()).is_some() || s.len() == 1,
        digit_value(s.last()).is_some(),
    ensures
        digits_value(s).is_some(),
        s.len() == 1 ==> digits_value(s) == digit_value(s.last()),
        s.len() > 1 ==> digits_value(s).unwrap() == digits_value(s.drop_last()).unwrap() * 10
            + digit_value(s.last()).unwrap(),
{
}

/// Reads a `Content-Length` header value.
pub fn parse_content_length(header: Option<&str>) -> (length: u64)
    ensures
        length == announced_length(
            match header {
                Some(text) => Some(text@),
                None => None,
            },
        ),
{
    let text = match header {
        Some(text) => text,
        None => { return 0; },
    };
    let n = text.unicode_len();
    let first: usize = if n > 0 && text.get_char(0) == '+' {
        1
    } else {
        0
    };
    let ghost digits = text@.subrange(first as int, n as int);
    proof {
        assert(digits =~= unsigned_part(text@));
    }
    if first == n {
        return 0;
    }
    let mut value: u64 = 0;
    let mut overflow = false;
    let mut i: usize = first;
    while i < n
        invariant
            first <= i <= n,
            first < n,
            n == text@.len(),
            digits == text@.subrange(first as int, n as int),
            digits == unsigned_part(text@),
            header == Some(text),
            i > first ==> digits_value(digits.subrange(0, i - first)).is_some(),
            i > first && !overflow ==> digits_value(digits.subrange(0, i - first)).unwrap()
                == value,
            i > first && overflow ==> digits_value(digits.subrange(0, i - first)).unwrap()
                > u64::MAX,
            i == first ==> value == 0 && !overflow,
        decreases n - i,
    {
        let c = text.get_char(i);
        let ghost prefix = digits.subrange(0, i + 1 - first);
        proof {
            assert(prefix.drop_last() =~= digits.subrange(0, i - first));
            assert(prefix.last() == c);
        }
        if c < '0' || c > '9' {
            proof {
                assert(digits[i - first] == c);
                lemma_bad_digit_spoils(digits, i - first);
            }
            return 0;
        }
        let d: u64 = (c as u32 - '0' as u32) as u64;
        proof {
            assert(digit_value(c) == Some(d as nat));
            lemma_digits_value_step(prefix);
        }
        if !overflow {
            match value.checked_mul(10) {
                Some(v10) => match v10.checked_add(d) {
                    Some(v) => { value = v; },
                    None => { overflow = true; },
                },
                None => { overflow = true; },
            }
        }
        i += 1;
    }
    proof {
        assert(digits.subrange(0, n - first) =~= digits);
    }
    if overflow {
        0
    } else {
        value
    }
}

/// A character that is no digit makes the whole run no number.
proof fn lemma_bad_digit_spoils(s: Seq<char>, at: int)
    requires
        0 <= at < s.len(),
        digit_value(s[at]).is_none(),
    ensures
        digits_value(s).is_none(),
    decreases s.len(),
{
    if s.len() > 1 {
        if at < s.len() - 1 {
            lemma_bad_digit_spoils(s.drop_last(), at);
        }
    }
}

/// The `Range` header value that asks for everything from `offset` on.
pub open spec fn range_header_value(offset: u64) -> Seq<char> {
    "bytes="@ + decimal(offset as nat) + "-"@
}

/// Builds the `Range` header value for a reopen at `offset`.
pub fn range_header(offset: u64) -> (value: String)
    ensures
        value@ == range_header_value(offset),
{
    let mut value = String::from_str("bytes=");
    push_decimal(&mut value, offset);
    value.append("-");
    value
}

/// Where the buffer of a reopened stream starts: at the offset asked for
/// when the server honoured the range with 206, at zero when it answered
/// 200 and sends the file from its beginning.
pub fn reopened_start(status: u16, offset: u64) -> (r: Result<u64, StreamError>)
    ensures
        r == if status == 206 {
            Ok::<u64, StreamError>(offset)
        } else if status == 200 {
            Ok(0u64)
        } else {
            Err(StreamError::RangeStatus(status))
        },
{
    if status == 206 {
        Ok(offset)
    } else if status == 200 {
        Ok(0)
    } else {
        Err(StreamError::RangeStatus(status))
    }
}


/// The decoder-facing cursor over a remote file.
pub struct HttpStreamSource {
    url: String,
    position: u64,
    content_length: u64,
}

/// What a read does with the buffer as it stands.
#[derive(Debug, Clone, PartialEq, Eq)]
pub enum ReadStep {
    /// Nothing more to read: zero bytes.
    Eof,
    /// The cursor lies before the buffer: request the file again from `offset`.
    Reopen { offset: u64 },
    /// The bytes have not arrived: wait for the worker, then read again.
    Wait,
    /// The worker failed while the read was waiting.
    Failed { message: String },
    /// `count` bytes were copied and the cursor moved past them.
    Filled { count: usize },
}

/// The branch a read takes, without its payload.
pub enum ReadKind {
    Eof,
    Reopen,
    Wait,
    Failed,
    Filled,
}

/// A seek request, relative to the start, the end or the cursor.
#[derive(Clone, Copy, Debug, PartialEq, Eq, Structural)]
pub enum SeekTarget {
    Start(u64),
    End(i64),
    Current(i64),
}

/// What a seek does with the buffer as it stands.
#[derive(Clone, Copy, Debug, PartialEq, Eq, Structural)]
pub enum SeekStep {
    /// The length is unknown and the download still runs: wait for its end,
    /// then plan again.
    WaitForEnd,
    /// The target lies below zero or past the signed 64-bit range.
    Invalid,
    /// Move the cursor to `position`; with `reopen`, first request the file
    /// again from there.
    Move { position: u64, reopen: bool },
}

impl HttpStreamSource {
    /// The address the stream was opened with.
    pub closed spec fn address(&self) -> Seq<char> {
        self.url@
    }

    /// The cursor: offset in the remote file of the next byte to read.
    pub closed spec fn pos(&self) -> u64 {
        self.position
    }

    /// The announced length of the file, zero when unknown.
    pub closed spec fn total(&self) -> u64 {
        self.content_length
    }

    /// The branch a read takes. `woken` tells a read that has already
    /// waited from a fresh one: only the former reports a worker's failure.
    pub open spec fn read_kind(&self, buffer: &StreamBuffer, woken: bool) -> ReadKind {
        if self.total() > 0 && self.pos() >= self.total() {
            ReadKind::Eof
        } else if self.pos() < buffer.start() {
            ReadKind::Reopen
        } else if !woken {
            if self.pos() >= buffer.end() {
                if buffer.finished() {
                    ReadKind::Eof
                } else {
                    ReadKind::Wait
                }
            } else {
                ReadKind::Filled
            }
        } else if self.pos() >= buffer.end() && !buffer.finished() && buffer.failure().is_none() {
            ReadKind::Wait
        } else if buffer.failure().is_some() {
            ReadKind::Failed
        } else if self.pos() >= buffer.end() {
            ReadKind::Eof
        } else {
            ReadKind::Filled
        }
    }

    /// The offset a seek asks for, before any check.
    pub open spec fn seek_goal(&self, target: SeekTarget, buffer: &StreamBuffer) -> int {
        match target {
            SeekTarget::Start(offset) => offset as int,
            SeekTarget::End(offset) => if self.total() > 0 {
                self.total() + offset
            } else {
                buffer.end() + offset
            },
            SeekTarget::Current(offset) => self.pos() + offset,
        }
    }

    /// What a seek to `target` does.
    pub open spec fn seek_plan(&self, target: SeekTarget, buffer: &StreamBuffer) -> SeekStep {
        let goal = self.seek_goal(target, buffer);
        if target is End && self.total() == 0 && !buffer.finished() {
            SeekStep::WaitForEnd
        } else if goal < 0 || goal > i64::MAX {
            SeekStep::Invalid
        } else {
            SeekStep::Move {
                position: goal as u64,
                reopen: goal >= buffer.end() && !buffer.finished() && goal > self.pos() && goal
                    - buffer.end() > PRE_BUFFER,
            }
        }
    }

    /// Accepts the answer to the first, unranged request. The stream opens
    /// at offset zero when the status is 200 or 206.
    pub fn open(url: &str, status: u16, content_length: Option<&str>) -> (r: Result<
        HttpStreamSource,
        StreamError,
    >)
        ensures
            match r {
                Ok(source) => {
                    &&& status_accepted(status)
                    &&& source.address() == url@
                    &&& source.pos() == 0
                    &&& source.total() == announced_length(
                        match content_length {
                            Some(text) => Some(text@),
                            None => None,
                        },
                    )
                },
                Err(e) => !status_accepted(status) && e == StreamError::Status(status),
            },
    {
        if status != 200 && status != 206 {
            return Err(StreamError::Status(status));
        }
        let content_length = parse_content_length(content_length);
        Ok(HttpStreamSource { url: String::from_str(url), position: 0, content_length })
    }

    pub fn url(&self) -> (url: &str)
        ensures
            url@ == self.address(),
    {
        self.url.as_str()
    }

    pub fn position(&self) -> (position: u64)
        ensures
            position == self.pos(),
    {
        self.position
    }

    pub fn content_length(&self) -> (length: u64)
        ensures
            length == self.total(),
    {
        self.content_length
    }

    /// The stream can always be repositioned.
    pub fn is_seekable(&self) -> (seekable: bool)
        ensures
            seekable,
    {
        true
    }

    /// The length of the file, unknown when the server announced none.
    pub fn byte_len(&self) -> (len: Option<u64>)
        ensures
            len == if self.total() > 0 {
                Some(self.total())
            } else {
                None
            },
    {
        if self.content_length > 0 {
            Some(self.content_length)
        } else {
            None
        }
    }

    /// Reads into `out` from the buffer as it stands. Bytes are copied only
    /// from inside the buffered window, starting at the cursor, and the
    /// cursor moves past them; in every other case nothing changes and the
    /// result says what the caller has to do before it reads again.
    pub fn read(&mut self, buffer: &StreamBuffer, out: &mut [u8], woken: bool) -> (step: ReadStep)
        requires
            buffer.wf(),
        ensures
            final(self).address() == old(self).address(),
            final(self).total() == old(self).total(),
            final(out)@.len() == old(out)@.len(),
            match step {
                ReadStep::Eof => old(self).read_kind(buffer, woken) is Eof,
                ReadStep::Reopen { offset } => old(self).read_kind(buffer, woken) is Reopen
                    && offset == old(self).pos(),
                ReadStep::Wait => old(self).read_kind(buffer, woken) is Wait,
                ReadStep::Failed { message } => old(self).read_kind(buffer, woken) is Failed
                    && buffer.failure() == Some(message@),
                ReadStep::Filled { count } => {
                    let from = old(self).pos() - buffer.start();
                    &&& old(self).read_kind(buffer, woken) is Filled
                    &&& count == if old(out)@.len() <= buffer.end() - old(self).pos() {
                        old(out)@.len() as int
                    } else {
                        buffer.end() - old(self).pos()
                    }
                    &&& final(self).pos() == old(self).pos() + count
                    &&& final(self).pos() <= buffer.end()
                    &&& final(out)@.subrange(0, count as int) == buffer.bytes().subrange(
                        from,
                        from + count,
                    )
                },
            },
            !(step is Filled) ==> final(self).pos() == old(self).pos() && final(out)@ == old(out)@,
            step matches ReadStep::Filled { count } ==> forall|i: int|
                count <= i < old(out)@.len() ==> final(out)@[i] == old(out)@[i],
    {
        if self.content_length > 0 && self.position >= self.content_length {
            return ReadStep::Eof;
        }
        if self.position < buffer.data_start {
            return ReadStep::Reopen { offset: self.position };
        }
        let buf_end = buffer.buf_end();
        if !woken {
            if self.position >= buf_end {
                if buffer.done {
                    return ReadStep::Eof;
                }
                return ReadStep::Wait;
            }
        } else {
            if self.position >= buf_end && !buffer.done && buffer.error.is_none() {
                return ReadStep::Wait;
            }
            match &buffer.error {
                Some(e) => {
                    return ReadStep::Failed { message: e.clone() };
                },
                None => {},
            }
            if self.position >= buf_end {
                return ReadStep::Eof;
            }
        }
        let buffered: usize = buffer.data.len();
        assert(self.position - buffer.data_start < buffered);
        let from: usize = (self.position - buffer.data_start) as usize;
        let available: usize = buffered - from;
        let count: usize = if out.len() <= available {
            out.len()
        } else {
            available
        };
        let mut i: usize = 0;
        while i < count
            invariant
                i <= count,
                from + count <= buffered,
                buffered == buffer.data@.len(),
                count <= out@.len(),
                out@.len() == old(out)@.len(),
                forall|k: int| 0 <= k < i ==> out@[k] == buffer.data@[from + k],
                forall|k: int| i <= k < out@.len() ==> out@[k] == old(out)@[k],
            decreases count - i,
        {
            out[i] = buffer.data[from + i];
            i += 1;
        }
        self.position = self.position + count as u64;
        proof {
            assert(out@.subrange(0, count as int) =~= buffer.bytes().subrange(
                from as int,
                from + count,
            ));
        }
        ReadStep::Filled { count }
    }

    /// Decides what a seek to `target` does; the cursor is not moved yet.
    pub fn plan_seek(&self, target: SeekTarget, buffer: &StreamBuffer) -> (step: SeekStep)
        requires
            buffer.wf(),
        ensures
            step == self.seek_plan(target, buffer),
    {
        let buf_end = buffer.buf_end();
        let goal: i128 = match target {
            SeekTarget::Start(offset) => offset as i128,
            SeekTarget::End(offset) => {
                if self.content_length > 0 {
                    self.content_length as i128 + offset as i128
                } else if !buffer.done {
                    return SeekStep::WaitForEnd;
                } else {
                    buf_end as i128 + offset as i128
                }
            },
            SeekTarget::Current(offset) => self.position as i128 + offset as i128,
        };
        if goal < 0 || goal > i64::MAX as i128 {
            return SeekStep::Invalid;
        }
        let position = goal as u64;
        let reopen = position >= buf_end && !buffer.done && position > self.position && position
            - buf_end > PRE_BUFFER as u64;
        SeekStep::Move { position, reopen }
    }

    /// Moves the cursor to `position`, as the last step of a seek.
    pub fn set_position(&mut self, position: u64) -> (now: u64)
        ensures
            now == position,
            final(self).pos() == position,
            final(self).total() == old(self).total(),
            final(self).address() == old(self).address(),
    {
        self.position = position;
        self.position
    }
}

/// While the length of the file is unknown it is reported as unknown, and
/// a seek relative to the end waits until the download has finished.
pub proof fn lemma_unknown_length_waits(source: HttpStreamSource, offset: i64, buffer: StreamBuffer)
    requires
        source.total() == 0,
    ensures
        !buffer.finished() ==> source.seek_plan(SeekTarget::End(offset), &buffer)
            == SeekStep::WaitForEnd,
        buffer.finished() ==> source.seek_plan(SeekTarget::End(offset), &buffer)
            != SeekStep::WaitForEnd,
        source.seek_plan(SeekTarget::Start(0), &buffer) != SeekStep::WaitForEnd,
        source.seek_plan(SeekTarget::Current(offset), &buffer) != SeekStep::WaitForEnd,
{
}

/// A read never hands out a byte from beyond the buffered window: when it
/// copies, the cursor was inside the window and stays inside it or at its
/// end.
pub proof fn lemma_read_stays_in_window(source: HttpStreamSource, buffer: StreamBuffer, woken: bool)
    requires
        source.read_kind(&buffer, woken) is Filled,
    ensures
        buffer.start() <= source.pos() < buffer.end(),
{
}

impl StreamError {
    /// The text of the error.
    pub open spec fn text(&self) -> Seq<char> {
        match self {
            StreamError::Status(status) => "HTTP request failed with status "@ + decimal(
                *status as nat,
            ),
            StreamError::RangeStatus(status) => "Range request returned status "@ + decimal(
                *status as nat,
            ),
            StreamError::PreBuffer(e) => "Download error during pre-buffer: "@ + e@,
            StreamError::NegativePosition => "Seek to negative position"@,
        }
    }

    /// Renders the error for the user.
    pub fn message(&self) -> (message: String)
        ensures
            message@ == self.text(),
    {
        match self {
            StreamError::Status(status) => {
                let mut message = String::from_str("HTTP request failed with status ");
                push_decimal(&mut message, *status as u64);
                message
            },
            StreamError::RangeStatus(status) => {
                let mut message = String::from_str("Range request returned status ");
                push_decimal(&mut message, *status as u64);
                message
            },
            StreamError::PreBuffer(e) => {
                let mut message = String::from_str("Download error during pre-buffer: ");
                message.append(e.as_str());
                message
            },
            StreamError::NegativePosition => String::from_str("Seek to negative position"),
        }
    }
}

} // verus!

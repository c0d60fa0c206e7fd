//! The state of one transfer.
//!
//! A transfer handler stands between the driver that moves the bytes of one request and
//! its response, and the caller that waits for the response. The driver asks it for the
//! bytes of the request body, and hands it the lines of the response head, the bytes of the
//! response body, and at last the outcome. The caller finds the response in a promise as
//! soon as its head is complete, reads the body through a pipe, and finds the outcome in a
//! second promise.

use crate::body::{AsyncBody, AsyncBodyView, Copying, Writer};
use crate::config::RedirectPolicy;
use crate::error::ErrorKind;
use crate::headers::{
    appended_fields, header_append, header_count, header_fields, header_map_new, is_field_name,
    is_field_value, no_fields, HEADER_ROOM,
};
use crate::parse::{
    begins_status, ends_head, header_of, is_status_line, is_terminator, names_match, parse_header,
    parse_status, same_name, status_of,
};
use crate::pipe::{Pipe, PipeRead, PipeView, PipeWrite, WriterEnd};
use crate::response::{Metrics, Response};
use vstd::prelude::*;
use vstd::slice::slice_to_vec;

verus! {

/// How far a transfer has come.
#[derive(Clone, Copy, Debug, PartialEq, Eq, Structural)]
pub enum TransferState {
    /// The transfer waits to be admitted.
    Pending,
    /// The transfer was admitted and is run by the driver.
    Active,
    /// The head of the request has gone out.
    HeadersSent,
    /// The head of the response is complete, and its body is coming in.
    Streaming,
    /// The driver has reported the end of the transfer.
    Closing,
    /// The transfer has ended well, and its slot is free again.
    Done,
    /// The transfer has failed, and its slot is free again.
    Failed,
}

impl TransferState {
    /// The place of a state in the order in which a transfer goes through its states.
    pub open spec fn rank(self) -> nat {
        match self {
            TransferState::Pending => 0,
            TransferState::Active => 1,
            TransferState::HeadersSent => 2,
            TransferState::Streaming => 3,
            TransferState::Closing => 4,
            TransferState::Done => 5,
            TransferState::Failed => 5,
        }
    }

    /// Whether the driver is running a transfer in this state.
    pub open spec fn is_running(self) -> bool {
        self is Active || self is HeadersSent || self is Streaming
    }
}

/// A value that is given once and taken once.
pub enum Promise<T> {
    /// The value is not there yet.
    Waiting,
    /// The value is there.
    Resolved(T),
    /// There will be no value, because of this failure.
    Rejected(ErrorKind),
    /// The value or the failure was there, and was taken.
    Taken,
}

impl<T> Promise<T> {
    /// Whether the value or a failure was given.
    pub open spec fn is_settled(self) -> bool {
        !(self is Waiting)
    }

    /// What is found in the promise by the one who takes it.
    pub open spec fn outcome(self) -> Option<Result<T, ErrorKind>> {
        match self {
            Promise::Resolved(value) => Some(Ok(value)),
            Promise::Rejected(failure) => Some(Err(failure)),
            _ => None,
        }
    }

    /// Tells whether neither a value nor a failure was given yet.
    pub fn is_waiting(&self) -> (waiting: bool)
        ensures
            waiting == (*self is Waiting),
    {
        match self {
            Promise::Waiting => true,
            _ => false,
        }
    }

    /// Gives the value, unless a value or a failure was given before. Returns whether the
    /// value was given.
    pub fn resolve(&mut self, value: T) -> (given: bool)
        ensures
            given == (*old(self) is Waiting),
            *final(self) == if given {
                Promise::Resolved(value)
            } else {
                *old(self)
            },
    {
        if self.is_waiting() {
            *self = Promise::Resolved(value);
            true
        } else {
            false
        }
    }

    /// Gives a failure, unless a value or a failure was given before. Returns whether the
    /// failure was given.
    pub fn reject(&mut self, failure: ErrorKind) -> (given: bool)
        ensures
            given == (*old(self) is Waiting),
            *final(self) == if given {
                Promise::Rejected(failure)
            } else {
                *old(self)
            },
    {
        if self.is_waiting() {
            *self = Promise::Rejected(failure);
            true
        } else {
            false
        }
    }

    /// Takes what was given out of the promise. Nothing is taken from a promise that is
    /// waiting or was taken from before.
    pub fn take(&mut self) -> (taken: Option<Result<T, ErrorKind>>)
        ensures
            taken == old(self).outcome(),
            *final(self) == if taken is Some {
                Promise::Taken
            } else {
                *old(self)
            },
    {
        let mut slot = Promise::Taken;
        core::mem::swap(self, &mut slot);
        match slot {
            Promise::Resolved(value) => Some(Ok(value)),
            Promise::Rejected(failure) => Some(Err(failure)),
            Promise::Waiting => {
                *self = Promise::Waiting;
                None
            },
            Promise::Taken => None,
        }
    }
}

/// What the driver is told when it has asked for bytes of the request body.
#[derive(Clone, Copy, Debug, PartialEq, Eq, Structural)]
pub enum Upload {
    /// So many bytes were put into the buffer. Zero bytes stand for the end of the body.
    Bytes(usize),
    /// No bytes are there at the moment. The driver asks again when it is told to.
    Pause,
    /// The body cannot be read. The transfer is to be ended.
    Abort,
}

/// What the driver is told when it has handed over bytes of the response body.
#[derive(Clone, Copy, Debug, PartialEq, Eq, Structural)]
pub enum Download {
    /// The bytes were taken.
    Taken,
    /// There is no room for the bytes at the moment. The driver hands them over again when
    /// it is told to.
    Pause,
    /// Nobody reads the body any more, or the driver is not running the transfer. The
    /// transfer is to be ended.
    Abort,
}

/// What is known of the connection that a response came over.
#[derive(Clone, Debug, PartialEq, Eq)]
pub struct ConnectionInfo {
    /// The URI that the response came from.
    pub effective_uri: Option<String>,
    /// The address of the local end of the connection.
    pub local_addr: Option<String>,
    /// The address of the remote end of the connection.
    pub remote_addr: Option<String>,
}

/// The bytes of each line.
pub open spec fn line_views(lines: Seq<Vec<u8>>) -> Seq<Seq<u8>> {
    lines.map_values(|line: Vec<u8>| line@)
}

/// Whether a status code stands for a redirect to another location.
pub open spec fn is_redirect(code: u16) -> bool {
    code == 301 || code == 302 || code == 303 || code == 307 || code == 308
}

/// The name of the header that says where a redirect leads.
pub open spec fn location() -> Seq<u8> {
    seq![108u8, 111u8, 99u8, 97u8, 116u8, 105u8, 111u8, 110u8]
}

/// Whether a line is a `Location` header.
pub open spec fn is_location(line: Seq<u8>) -> bool {
    match header_of(line) {
        Some((name, value)) => same_name(name, location()),
        None => false,
    }
}

/// Whether one of the header lines is a `Location` header.
pub open spec fn has_location(lines: Seq<Seq<u8>>) -> bool {
    exists|i: int| 0 <= i < lines.len() && is_location(#[trigger] lines[i])
}

/// Whether a response head is not that of the response that the caller waits for: it is
/// an interim response, or a redirect that the driver follows or fails on.
pub open spec fn is_interim(code: u16, lines: Seq<Seq<u8>>, policy: RedirectPolicy) -> bool {
    (100 <= code && code < 200) || (policy != RedirectPolicy::NoFollow && is_redirect(code)
        && has_location(lines))
}

/// The fields of the header map that is made of header lines, where `taken` says of each
/// line whether the map took it. A line that is no header is not taken.
pub open spec fn fields_from(lines: Seq<Seq<u8>>, taken: Seq<bool>) -> Map<
    Seq<char>,
    Seq<Option<Seq<char>>>,
>
    decreases lines.len(),
{
    if lines.len() == 0 || taken.len() != lines.len() {
        no_fields()
    } else {
        let before = fields_from(lines.drop_last(), taken.drop_last());
        match header_of(lines.last()) {
            Some((name, value)) => if taken.last() {
                appended_fields(before, name, value)
            } else {
                before
            },
            None => before,
        }
    }
}

/// Whether a line is a header whose name and value the header map accepts.
pub open spec fn is_accepted(line: Seq<u8>) -> bool {
    header_of(line) matches Some((name, value)) && is_field_name(name) && is_field_value(value)
}

/// Whether `taken` says rightly which of the header lines the header map takes: it takes
/// no line but a header whose name and value it accepts, and of the first
/// [`HEADER_ROOM`] lines it takes every such header.
pub open spec fn takes(lines: Seq<Seq<u8>>, taken: Seq<bool>) -> bool {
    &&& taken.len() == lines.len()
    &&& forall|i: int| 0 <= i < lines.len() && #[trigger] taken[i] ==> is_accepted(lines[i])
    &&& forall|i: int|
        0 <= i < lines.len() && i < HEADER_ROOM && is_accepted(lines[i]) ==> #[trigger] taken[i]
}

/// Whether the fields are those of the header lines: those of the headers among the lines
/// whose name and value the header map accepts, in the order of the lines. Of more than
/// [`HEADER_ROOM`] lines, those behind may be left out for want of room.
pub open spec fn assembled(lines: Seq<Seq<u8>>, fields: Map<Seq<char>, Seq<Option<Seq<char>>>>) -> bool {
    exists|taken: Seq<bool>| takes(lines, taken) && fields == #[trigger] fields_from(lines, taken)
}

/// The header map takes every header of a response head whose name and value it accepts,
/// and nothing else, as long as the head has no more than [`HEADER_ROOM`] lines: the
/// fields of the response are then fixed by the lines.
pub proof fn lemma_assembled_exactly(
    lines: Seq<Seq<u8>>,
    first: Map<Seq<char>, Seq<Option<Seq<char>>>>,
    second: Map<Seq<char>, Seq<Option<Seq<char>>>>,
)
    requires
        lines.len() <= HEADER_ROOM,
        assembled(lines, first),
        assembled(lines, second),
    ensures
        first == second,
{
    let a = choose|taken: Seq<bool>| takes(lines, taken) && first == #[trigger] fields_from(lines, taken);
    let b = choose|taken: Seq<bool>| takes(lines, taken) && second == #[trigger] fields_from(lines, taken);
    assert(a =~= b) by {
        assert forall|i: int| 0 <= i < a.len() implies a[i] == b[i] by {
            if a[i] {
                assert(is_accepted(lines[i]));
                assert(b[i]);
            }
            if b[i] {
                assert(is_accepted(lines[i]));
                assert(a[i]);
            }
        }
    }
}

/// A transfer handler as a mathematical value.
pub struct HandlerView {
    /// The number of the transfer.
    pub id: u64,
    /// How far the transfer has come.
    pub state: TransferState,
    /// The body of the request.
    pub body: AsyncBodyView,
    /// The number of bytes of the request body that were handed to the driver.
    pub uploaded: u64,
    /// The status code of the response head that is coming in.
    pub status: Option<u16>,
    /// The header lines of the response head that is coming in.
    pub lines: Seq<Seq<u8>>,
    /// The redirect policy of the transfer.
    pub policy: RedirectPolicy,
    /// The metrics of the transfer, where they were asked for.
    pub metrics: Option<Metrics>,
    /// What is known of the connection.
    pub info: ConnectionInfo,
    /// The pipe that carries the response body.
    pub pipe: PipeView,
    /// The promise of the response.
    pub headers: Promise<Response<()>>,
    /// The promise of the outcome.
    pub result: Promise<()>,
    /// Whether the transfer has failed.
    pub failed: bool,
}

impl HandlerView {
    /// The handler of a transfer that was submitted and waits to be admitted: nothing
    /// of the request has gone out, nothing of the response has come in, and both promises
    /// are waiting. The pipe of the response body is empty, has the default capacity, and
    /// is open at both ends. Where metrics were asked for, they start at zero.
    pub open spec fn fresh(
        id: u64,
        body: AsyncBodyView,
        policy: RedirectPolicy,
        metrics: bool,
    ) -> HandlerView {
        HandlerView {
            id,
            state: TransferState::Pending,
            body,
            uploaded: 0,
            status: None,
            lines: Seq::empty(),
            policy,
            metrics: if metrics {
                Some(
                    Metrics { upload_total: 0, upload_now: 0, download_total: 0, download_now: 0 },
                )
            } else {
                None
            },
            info: ConnectionInfo { effective_uri: None, local_addr: None, remote_addr: None },
            pipe: PipeView {
                buffered: Seq::empty(),
                capacity: crate::pipe::DEFAULT_CAPACITY as nat,
                writer: WriterEnd::Open,
                reader_open: true,
                written: Seq::empty(),
                taken: Seq::empty(),
            },
            headers: Promise::Waiting,
            result: Promise::Waiting,
            failed: false,
        }
    }

    /// Whether the response head is still coming in.
    pub open spec fn awaits_head(self) -> bool {
        self.state is Active || self.state is HeadersSent
    }

    /// Whether a line completes the head of the response that the caller waits for.
    pub open spec fn completes_head(self, line: Seq<u8>) -> bool {
        &&& self.awaits_head()
        &&& !is_status_line(line)
        &&& is_terminator(line)
        &&& self.status matches Some(code) && !is_interim(code, self.lines, self.policy)
    }

    /// The handler after a line of the response head that does not complete the head: a
    /// status line begins a new head, and every other line is kept, but for the empty line
    /// at the end of a head that is not waited for. That head stays until the next begins:
    /// it is the head of the response if the transfer ends without another. A handler that
    /// is not waiting for the head keeps nothing.
    pub open spec fn after_line(self, line: Seq<u8>) -> HandlerView {
        if !self.awaits_head() {
            self
        } else if is_status_line(line) {
            HandlerView { status: status_of(line), lines: Seq::empty(), ..self }
        } else if is_terminator(line) {
            self
        } else {
            HandlerView { lines: self.lines.push(line), ..self }
        }
    }

    /// Whether a response is the one that is made of the head that has come in.
    pub open spec fn describes(self, response: Response<()>) -> bool {
        &&& self.status == Some(response.status)
        &&& assembled(self.lines, header_fields(response.headers))
        &&& response.metrics == self.metrics
        &&& response.effective_uri == self.info.effective_uri
        &&& response.local_addr == self.info.local_addr
        &&& response.remote_addr == self.info.remote_addr
    }

    /// Whether `after` and `goes_on` are what comes of a line of the response head: the
    /// transfer goes on as long as the driver is running it; a line that completes the head
    /// has the response given, and any other line is seen to as [`HandlerView::after_line`]
    /// says.
    pub open spec fn header_step(self, line: Seq<u8>, after: HandlerView, goes_on: bool) -> bool {
        &&& goes_on == self.state.is_running()
        &&& !self.completes_head(line) ==> after == self.after_line(line)
        &&& self.completes_head(line) ==> {
            &&& after == (HandlerView {
                state: TransferState::Streaming,
                lines: Seq::empty(),
                headers: after.headers,
                ..self
            })
            &&& after.headers matches Promise::Resolved(response) && self.describes(response)
        }
    }

    /// What the driver is told when it hands over bytes of a response body. Where the
    /// response was given, the bytes go into the pipe, and the driver is told what the pipe
    /// says. While the head of the response is waited for, the bytes belong to a response
    /// that is passed over: they are taken and dropped. A transfer that the driver is not
    /// running takes nothing.
    pub open spec fn download_result(self, bytes: Seq<u8>) -> Download {
        if self.state is Streaming {
            match self.pipe.write_result(bytes) {
                PipeWrite::Written => Download::Taken,
                PipeWrite::Pending => Download::Pause,
                PipeWrite::BrokenPipe => Download::Abort,
            }
        } else if self.awaits_head() {
            Download::Taken
        } else {
            Download::Abort
        }
    }

    /// The handler after the driver has handed over bytes of a response body: they are in
    /// the pipe where the response was given and the pipe has taken them.
    pub open spec fn after_body(self, bytes: Seq<u8>) -> HandlerView {
        if self.state is Streaming && self.download_result(bytes) == Download::Taken {
            HandlerView { pipe: self.pipe.after_write(bytes), ..self }
        } else {
            self
        }
    }

    /// What the driver is told when it asks for at most `room` bytes of the request body: to
    /// abort where it is not running the transfer or the body has failed, to pause where no
    /// bytes are there yet, and else how many bytes it was given.
    pub open spec fn upload_result(self, room: nat) -> Upload {
        if !self.state.is_running() {
            Upload::Abort
        } else {
            match self.body.read_result(room) {
                PipeRead::Ready(n) => Upload::Bytes(n),
                PipeRead::Pending => Upload::Pause,
                PipeRead::Failed(_) => Upload::Abort,
            }
        }
    }

    /// The number of bytes of the request body that were handed to the driver, after `n`
    /// more were. The count stops at the largest number that it can hold.
    pub open spec fn counted(self, n: usize) -> u64 {
        if self.uploaded + n <= u64::MAX {
            (self.uploaded + n) as u64
        } else {
            u64::MAX
        }
    }

    /// The handler after the driver has asked for at most `room` bytes of the request
    /// body. A transfer that was admitted counts from then on as one whose head has gone
    /// out; the bytes that were handed over are read and counted.
    pub open spec fn after_upload(self, room: nat) -> HandlerView {
        if !self.state.is_running() {
            self
        } else {
            let state = if self.state is Active {
                TransferState::HeadersSent
            } else {
                self.state
            };
            match self.upload_result(room) {
                Upload::Bytes(n) => HandlerView {
                    state,
                    body: self.body.after_read(n as nat),
                    uploaded: self.counted(n),
                    ..self
                },
                _ => HandlerView { state, ..self },
            }
        }
    }

    /// The handler after the driver has reported numbers on the progress of the transfer.
    pub open spec fn after_progress(self, metrics: Metrics) -> HandlerView {
        HandlerView {
            metrics: if self.metrics is Some {
                Some(metrics)
            } else {
                None
            },
            ..self
        }
    }

    /// Whether `after` is what comes of the handler when the driver has reported the
    /// outcome of the transfer.
    pub open spec fn complete_step(self, failure: Option<ErrorKind>, after: HandlerView) -> bool {
        if self.state.rank() >= 4 {
            after == self
        } else {
            let ended = self.final_failure(failure);
            &&& after == (HandlerView {
                state: TransferState::Closing,
                lines: after.lines,
                headers: after.headers,
                pipe: PipeView {
                    writer: match ended {
                        Some(kind) => WriterEnd::Failed(kind),
                        None => WriterEnd::Closed,
                    },
                    ..self.pipe
                },
                result: match ended {
                    Some(kind) => Promise::Rejected(kind),
                    None => Promise::Resolved(()),
                },
                failed: ended is Some,
                ..self
            })
            &&& self.headers.is_settled() ==> after.headers == self.headers && after.lines
                == self.lines
            &&& self.headers is Waiting ==> match ended {
                Some(kind) => after.headers == Promise::<Response<()>>::Rejected(kind),
                None => after.headers matches Promise::Resolved(response) && self.describes(
                    response,
                ),
            }
        }
    }

    /// The handler after the slot of its transfer was freed.
    pub open spec fn released(self) -> HandlerView {
        HandlerView {
            state: if self.state is Closing {
                if self.failed {
                    TransferState::Failed
                } else {
                    TransferState::Done
                }
            } else {
                self.state
            },
            ..self
        }
    }

    /// The handler after its transfer was admitted.
    pub open spec fn activated(self) -> HandlerView {
        HandlerView {
            state: if self.state is Pending {
                TransferState::Active
            } else {
                self.state
            },
            ..self
        }
    }

    /// The failure that a transfer ends with, given the failure that the driver reports. A
    /// failure of a transfer whose response body nobody reads any more counts as a
    /// cancellation. A transfer that ends without a response head has failed for want of a
    /// response.
    pub open spec fn final_failure(self, failure: Option<ErrorKind>) -> Option<ErrorKind> {
        match failure {
            Some(kind) => if self.pipe.reader_open {
                Some(kind)
            } else {
                Some(ErrorKind::Canceled)
            },
            None => if self.headers is Waiting && self.status is None {
                Some(ErrorKind::NoResponse)
            } else {
                None
            },
        }
    }
}

/// The state of one transfer.
pub struct TransferHandler {
    id: u64,
    state: TransferState,
    body: AsyncBody,
    uploaded: u64,
    status: Option<u16>,
    lines: Vec<Vec<u8>>,
    policy: RedirectPolicy,
    metrics: Option<Metrics>,
    info: ConnectionInfo,
    pipe: Pipe,
    headers: Promise<Response<()>>,
    result: Promise<()>,
    failed: bool,
}

impl View for TransferHandler {
    type V = HandlerView;

    closed spec fn view(&self) -> HandlerView {
        HandlerView {
            id: self.id,
            state: self.state,
            body: self.body@,
            uploaded: self.uploaded,
            status: self.status,
            lines: line_views(self.lines@),
            policy: self.policy,
            metrics: self.metrics,
            info: self.info,
            pipe: self.pipe@,
            headers: self.headers,
            result: self.result,
            failed: self.failed,
        }
    }
}

/// Copies a text that may be there.
fn clone_text(text: &Option<String>) -> (copy: Option<String>)
    ensures
        copy == *text,
{
    match text {
        Some(text) => Some(text.clone()),
        None => None,
    }
}

impl TransferHandler {
    /// The invariant of a handler. The response is promised until the head of the response
    /// is complete, and no byte of the body is in the pipe before. The outcome is promised
    /// until the driver reports it, and the pipe is open for writing until then.
    pub closed spec fn wf(&self) -> bool {
        &&& self.body.wf()
        &&& self.pipe.wf()
        &&& self.headers is Waiting <==> self.state.rank() < 3
        &&& self.result is Waiting <==> self.state.rank() < 4
        &&& self.pipe@.writer == WriterEnd::Open <==> self.state.rank() < 4
        &&& self.headers is Waiting ==> self.pipe@.written.len() == 0
    }

    /// The response is there no later than the first byte of its body: as long as the
    /// response is promised, no byte was written into the pipe of the body.
    pub proof fn lemma_headers_before_body(&self)
        requires
            self.wf(),
        ensures
            self@.pipe.written.len() > 0 ==> self@.headers.is_settled(),
            self@.headers is Waiting <==> self@.state.rank() < 3,
            self@.result is Waiting <==> self@.state.rank() < 4,
            self@.pipe.writer == WriterEnd::Open <==> self@.state.rank() < 4,
    {
    }

    /// The bytes that the caller reads from the body are the bytes that the driver has
    /// handed over, in their order: what was read, followed by what is in the pipe, is what
    /// was handed over. A caller that has reached the end of the body has read all of it.
    pub proof fn lemma_body_preserved(&self)
        requires
            self.wf(),
        ensures
            self@.pipe.taken + self@.pipe.buffered == self@.pipe.written,
            self@.pipe.at_end() ==> self@.pipe.taken == self@.pipe.written,
    {
        self.pipe.lemma_bytes_preserved();
    }

    /// Creates the handler of a transfer that waits to be admitted.
    pub fn new(id: u64, body: AsyncBody, policy: RedirectPolicy, metrics: bool) -> (handler: TransferHandler)
        requires
            body.wf(),
        ensures
            handler.wf(),
            handler@ == HandlerView::fresh(id, body@, policy, metrics),
    {
        let handler = TransferHandler {
            id,
            state: TransferState::Pending,
            body,
            uploaded: 0,
            status: None,
            lines: Vec::new(),
            policy,
            metrics: if metrics {
                Some(Metrics { upload_total: 0, upload_now: 0, download_total: 0, download_now: 0 })
            } else {
                None
            },
            info: ConnectionInfo { effective_uri: None, local_addr: None, remote_addr: None },
            pipe: Pipe::new(),
            headers: Promise::Waiting,
            result: Promise::Waiting,
            failed: false,
        };
        assert(line_views(handler.lines@) =~= Seq::<Seq<u8>>::empty());
        handler
    }

    /// Returns the number of the transfer.
    pub fn id(&self) -> (id: u64)
        ensures
            id == self@.id,
    {
        self.id
    }

    /// Returns how far the transfer has come.
    pub fn state(&self) -> (state: TransferState)
        ensures
            state == self@.state,
    {
        self.state
    }

    /// Returns the number of bytes of the request body that were handed to the driver.
    pub fn uploaded(&self) -> (uploaded: u64)
        ensures
            uploaded == self@.uploaded,
    {
        self.uploaded
    }

    /// Tells whether the transfer is to be cancelled: nobody reads the response body any
    /// more, and the driver has not reported the end of the transfer.
    pub fn wants_cancel(&self) -> (cancel: bool)
        requires
            self.wf(),
        ensures
            cancel == (!self@.pipe.reader_open && self@.state.rank() < 4),
    {
        self.pipe.is_reader_closed() && self.result.is_waiting()
    }

    /// Marks a transfer that was waiting as admitted. Any other transfer stays as it is.
    pub fn activate(&mut self)
        requires
            old(self).wf(),
        ensures
            final(self).wf(),
            final(self)@ == old(self)@.activated(),
    {
        if let TransferState::Pending = self.state {
            self.state = TransferState::Active;
        }
    }

    /// Notes what is known of the connection. It goes into the response when the head of the
    /// response is complete.
    pub fn set_connection_info(&mut self, info: ConnectionInfo)
        requires
            old(self).wf(),
        ensures
            final(self).wf(),
            final(self)@ == (HandlerView { info, ..old(self)@ }),
    {
        self.info = info;
    }

    /// Pulls bytes of the request body for the driver.
    ///
    /// A transfer that the driver is not running has no bytes to give: the driver is told
    /// to abort. Else the body is read without blocking: the bytes that are there are put
    /// into the front of `buf` and counted, the driver is told to pause where none are
    /// there yet, and to abort where the body has failed. A transfer that was admitted
    /// counts from now on as one whose head has gone out.
    pub fn fill_upload(&mut self, buf: &mut [u8]) -> (result: Upload)
        requires
            old(self).wf(),
        ensures
            final(self).wf(),
            final(buf)@.len() == old(buf)@.len(),
            result == old(self)@.upload_result(old(buf)@.len()),
            final(self)@ == old(self)@.after_upload(old(buf)@.len()),
            match result {
                Upload::Bytes(n) => {
                    &&& n <= old(buf)@.len()
                    &&& final(buf)@.take(n as int) == old(self)@.body.unread().take(n as int)
                    &&& final(buf)@.skip(n as int) == old(buf)@.skip(n as int)
                },
                _ => final(buf)@ == old(buf)@,
            },
    {
        match self.state {
            TransferState::Active => {
                self.state = TransferState::HeadersSent;
            },
            TransferState::HeadersSent => {},
            TransferState::Streaming => {},
            _ => {
                return Upload::Abort;
            },
        }
        match self.body.read(buf) {
            PipeRead::Ready(n) => {
                self.uploaded = if n as u64 <= u64::MAX - self.uploaded {
                    self.uploaded + n as u64
                } else {
                    u64::MAX
                };
                Upload::Bytes(n)
            },
            PipeRead::Pending => Upload::Pause,
            PipeRead::Failed(_) => Upload::Abort,
        }
    }

    /// Lets a writer copy bytes of its source into the pipe of the request body, as
    /// [`AsyncBody::fill`] does. Reading the source may block.
    pub fn fill_body(&mut self, writer: &mut Writer) -> (result: Copying)
        requires
            old(self).wf(),
            old(writer).wf(),
        ensures
            final(self).wf(),
            final(writer).wf(),
            final(self)@ == (HandlerView { body: final(self)@.body, ..old(self)@ }),
            old(self)@.body.filled(old(writer)@, final(writer)@, final(self)@.body, result),
    {
        self.body.fill(writer)
    }

    /// Tells whether one of the header lines that were kept is a `Location` header.
    fn keeps_location(&self) -> (found: bool)
        ensures
            found == has_location(self@.lines),
    {
        let name: [u8; 8] = [108, 111, 99, 97, 116, 105, 111, 110];
        let mut i: usize = 0;
        while i < self.lines.len()
            invariant
                i <= self.lines.len(),
                name@ == location(),
                forall|j: int| 0 <= j < i ==> !is_location(#[trigger] line_views(self.lines@)[j]),
            decreases self.lines.len() - i,
        {
            match parse_header(self.lines[i].as_slice()) {
                Some((found, _)) => {
                    if names_match(found, name.as_slice()) {
                        assert(is_location(line_views(self.lines@)[i as int]));
                        return true;
                    }
                },
                None => {},
            }
            i = i + 1;
        }
        false
    }

    /// Makes the response of the head that has come in.
    fn assemble(&self, code: u16) -> (response: Response<()>)
        ensures
            response.status == code,
            assembled(self@.lines, header_fields(response.headers)),
            response.metrics == self@.metrics,
            response.effective_uri == self@.info.effective_uri,
            response.local_addr == self@.info.local_addr,
            response.remote_addr == self@.info.remote_addr,
    {
        let mut headers = header_map_new();
        let ghost mut taken: Seq<bool> = Seq::empty();
        let ghost lines = line_views(self.lines@);
        let mut i: usize = 0;
        proof {
            assert(lines.take(0) =~= Seq::<Seq<u8>>::empty());
        }
        while i < self.lines.len()
            invariant
                i <= self.lines.len(),
                lines == line_views(self.lines@),
                taken.len() == i,
                header_fields(headers) == fields_from(lines.take(i as int), taken),
                header_count(headers) <= i,
                takes(lines.take(i as int), taken),
            decreases self.lines.len() - i,
        {
            let ghost before = taken;
            let appended = match parse_header(self.lines[i].as_slice()) {
                Some((name, value)) => header_append(&mut headers, name, value),
                None => false,
            };
            proof {
                taken = taken.push(appended);
                assert(lines.take(i + 1).drop_last() =~= lines.take(i as int));
                assert(taken.drop_last() =~= before);
                assert(lines.take(i + 1).last() == self.lines@[i as int]@);
                assert(appended ==> is_accepted(lines[i as int]));
                assert(i < HEADER_ROOM && is_accepted(lines[i as int]) ==> appended);
                assert forall|j: int| 0 <= j < i + 1 && #[trigger] taken[j] implies is_accepted(
                    lines.take(i + 1)[j],
                ) by {
                    if j < i {
                        assert(before[j]);
                        assert(lines.take(i as int)[j] == lines.take(i + 1)[j]);
                    }
                }
                assert forall|j: int|
                    0 <= j < i + 1 && j < HEADER_ROOM && is_accepted(
                        lines.take(i + 1)[j],
                    ) implies #[trigger] taken[j] by {
                    if j < i {
                        assert(lines.take(i as int)[j] == lines.take(i + 1)[j]);
                        assert(before[j]);
                    }
                }
            }
            i = i + 1;
        }
        proof {
            assert(lines.take(self.lines.len() as int) =~= lines);
        }
        Response {
            status: code,
            headers,
            effective_uri: clone_text(&self.info.effective_uri),
            local_addr: clone_text(&self.info.local_addr),
            remote_addr: clone_text(&self.info.remote_addr),
            metrics: self.metrics,
            body: (),
        }
    }

    /// Takes a line of the response head from the driver. Returns whether the transfer
    /// goes on: it does as long as the driver is running it.
    ///
    /// A line is kept while the head is coming in. When the empty line ends the head, the
    /// response is made and given to the promise, unless the head is that of an interim
    /// response, or of a redirect that the transfer follows: then the next head is waited
    /// for. The response is given once; lines that come later are not kept.
    pub fn accept_header(&mut self, line: &[u8]) -> (goes_on: bool)
        requires
            old(self).wf(),
        ensures
            final(self).wf(),
            old(self)@.header_step(line@, final(self)@, goes_on),
    {
        match self.state {
            TransferState::Active => {},
            TransferState::HeadersSent => {},
            TransferState::Streaming => {
                return true;
            },
            _ => {
                return false;
            },
        }
        if begins_status(line) {
            self.status = parse_status(line);
            self.lines = Vec::new();
            proof {
                assert(line_views(self.lines@) =~= Seq::<Seq<u8>>::empty());
            }
        } else if ends_head(line) {
            let done = match self.status {
                Some(code) => {
                    let interim = (100 <= code && code < 200) || (self.policy
                        != RedirectPolicy::NoFollow && (code == 301 || code == 302 || code == 303
                        || code == 307 || code == 308) && self.keeps_location());
                    if interim {
                        None
                    } else {
                        Some(code)
                    }
                },
                None => None,
            };
            match done {
                Some(code) => {
                    let response = self.assemble(code);
                    self.headers = Promise::Resolved(response);
                    self.state = TransferState::Streaming;
                    self.lines = Vec::new();
                    proof {
                        assert(line_views(self.lines@) =~= Seq::<Seq<u8>>::empty());
                    }
                },
                None => {},
            }
        } else {
            let ghost before = self.lines@;
            self.lines.push(slice_to_vec(line));
            proof {
                assert(line_views(self.lines@) =~= line_views(before).push(line@));
            }
        }
        true
    }

    /// Takes bytes of a response body from the driver.
    ///
    /// Where the response was given, the bytes are written into the pipe if it has room
    /// for them. Where it has no room, the driver is told to pause; the same bytes come
    /// again when the caller has read. Where nobody reads the body any more, the driver is
    /// told to abort. While the head of the response is waited for, the bytes are those of a
    /// response that is passed over, and are dropped. A transfer that the driver is not
    /// running takes nothing: the driver is told to abort.
    pub fn accept_body(&mut self, bytes: &[u8]) -> (result: Download)
        requires
            old(self).wf(),
        ensures
            final(self).wf(),
            result == old(self)@.download_result(bytes@),
            final(self)@ == old(self)@.after_body(bytes@),
    {
        match self.state {
            TransferState::Streaming => {},
            TransferState::Active => {
                return Download::Taken;
            },
            TransferState::HeadersSent => {
                return Download::Taken;
            },
            _ => {
                return Download::Abort;
            },
        }
        match self.pipe.write(bytes) {
            PipeWrite::Written => Download::Taken,
            PipeWrite::Pending => Download::Pause,
            PipeWrite::BrokenPipe => Download::Abort,
        }
    }

    /// Takes the numbers on the progress of the transfer. They are kept where the metrics of
    /// the transfer were asked for.
    pub fn on_progress(&mut self, metrics: Metrics)
        requires
            old(self).wf(),
        ensures
            final(self).wf(),
            final(self)@ == old(self)@.after_progress(metrics),
    {
        if self.metrics.is_some() {
            self.metrics = Some(metrics);
        }
    }

    /// Takes the outcome of the transfer from the driver: no failure, or the failure that
    /// ended the transfer. A transfer whose outcome was taken before stays as it is.
    ///
    /// The failure that counts is [`HandlerView::final_failure`]. Where the response was not
    /// given yet, it is given now, or the failure in its place. The writing end of the pipe
    /// is closed, with the failure if there is one. The outcome is given to its promise.
    pub fn on_complete(&mut self, failure: Option<ErrorKind>)
        requires
            old(self).wf(),
        ensures
            final(self).wf(),
            old(self)@.complete_step(failure, final(self)@),
    {
        if !self.result.is_waiting() {
            return ;
        }
        let ended = match failure {
            Some(kind) => if self.pipe.is_reader_closed() {
                Some(ErrorKind::Canceled)
            } else {
                Some(kind)
            },
            None => if self.headers.is_waiting() && self.status.is_none() {
                Some(ErrorKind::NoResponse)
            } else {
                None
            },
        };
        if self.headers.is_waiting() {
            match ended {
                Some(kind) => {
                    self.headers = Promise::Rejected(kind);
                },
                None => {
                    match self.status {
                        Some(code) => {
                            let response = self.assemble(code);
                            self.headers = Promise::Resolved(response);
                        },
                        None => {},
                    }
                },
            }
        }
        self.pipe.close_writer(ended);
        match ended {
            Some(kind) => {
                self.result = Promise::Rejected(kind);
                self.failed = true;
            },
            None => {
                self.result = Promise::Resolved(());
                self.failed = false;
            },
        }
        self.state = TransferState::Closing;
    }

    /// Ends the transfer as cancelled, as [`TransferHandler::on_complete`] does with the
    /// failure `Canceled`.
    pub fn cancel(&mut self)
        requires
            old(self).wf(),
        ensures
            final(self).wf(),
            old(self)@.complete_step(Some(ErrorKind::Canceled), final(self)@),
    {
        self.on_complete(Some(ErrorKind::Canceled));
    }

    /// Frees the slot of a transfer whose outcome the driver has reported: the transfer is
    /// done, or has failed. Any other transfer stays as it is.
    pub fn release(&mut self)
        requires
            old(self).wf(),
        ensures
            final(self).wf(),
            final(self)@ == old(self)@.released(),
    {
        if let TransferState::Closing = self.state {
            self.state = if self.failed {
                TransferState::Failed
            } else {
                TransferState::Done
            };
        }
    }

    /// Takes the response, or the failure in its place, out of its promise. There is
    /// nothing to take before the head of the response is complete, and after it was taken.
    pub fn take_response(&mut self) -> (taken: Option<Result<Response<()>, ErrorKind>>)
        requires
            old(self).wf(),
        ensures
            final(self).wf(),
            taken == old(self)@.headers.outcome(),
            final(self)@ == (HandlerView {
                headers: if taken is Some {
                    Promise::Taken
                } else {
                    old(self)@.headers
                },
                ..old(self)@
            }),
    {
        self.headers.take()
    }

    /// Takes the outcome of the transfer out of its promise. There is nothing to take
    /// before the driver has reported the outcome, and after it was taken.
    pub fn take_result(&mut self) -> (taken: Option<Result<(), ErrorKind>>)
        requires
            old(self).wf(),
        ensures
            final(self).wf(),
            taken == old(self)@.result.outcome(),
            final(self)@ == (HandlerView {
                result: if taken is Some {
                    Promise::Taken
                } else {
                    old(self)@.result
                },
                ..old(self)@
            }),
    {
        self.result.take()
    }

    /// Reads bytes of the response body for the caller, as [`Pipe::read`] does.
    pub fn read_body(&mut self, buf: &mut [u8]) -> (result: PipeRead)
        requires
            old(self).wf(),
        ensures
            final(self).wf(),
            final(buf)@.len() == old(buf)@.len(),
            result == old(self)@.pipe.read_result(old(buf)@.len()),
            match result {
                PipeRead::Ready(n) => {
                    &&& final(self)@ == (HandlerView {
                        pipe: old(self)@.pipe.after_read(n as int),
                        ..old(self)@
                    })
                    &&& final(buf)@.take(n as int) == old(self)@.pipe.buffered.take(n as int)
                    &&& final(buf)@.skip(n as int) == old(buf)@.skip(n as int)
                },
                _ => final(self)@ == old(self)@ && final(buf)@ == old(buf)@,
            },
    {
        self.pipe.read(buf)
    }

    /// Closes the reading end of the pipe: the caller reads the response body no more.
    /// From now on the driver is told to abort when it hands over bytes of the body, and
    /// a failure of the transfer counts as a cancellation.
    pub fn drop_body(&mut self)
        requires
            old(self).wf(),
        ensures
            final(self).wf(),
            final(self)@ == (HandlerView {
                pipe: PipeView { reader_open: false, ..old(self)@.pipe },
                ..old(self)@
            }),
    {
        self.pipe.close_reader();
    }
}

/// A transfer goes through its states in their order and enters none again: whatever the
/// driver hands over or reports, and when the transfer is admitted or its slot is freed,
/// the state stays or moves on.
pub proof fn lemma_states_in_order(
    before: HandlerView,
    line: Seq<u8>,
    bytes: Seq<u8>,
    room: nat,
    metrics: Metrics,
    failure: Option<ErrorKind>,
    after: HandlerView,
    goes_on: bool,
)
    ensures
        before.header_step(line, after, goes_on) ==> before.state.rank() <= after.state.rank(),
        before.complete_step(failure, after) ==> before.state.rank() <= after.state.rank(),
        before.state.rank() <= before.after_body(bytes).state.rank(),
        before.state.rank() <= before.after_upload(room).state.rank(),
        before.state.rank() <= before.after_progress(metrics).state.rank(),
        before.state.rank() <= before.activated().state.rank(),
        before.state.rank() <= before.released().state.rank(),
{
}

/// The response is given at most once: once the response or a failure in its place is in
/// the promise, nothing that the driver hands over or reports changes what is there.
pub proof fn lemma_response_given_once(
    before: HandlerView,
    line: Seq<u8>,
    bytes: Seq<u8>,
    room: nat,
    failure: Option<ErrorKind>,
    after: HandlerView,
    goes_on: bool,
)
    requires
        before.headers.is_settled(),
        before.state.rank() >= 3,
    ensures
        before.header_step(line, after, goes_on) ==> after.headers == before.headers,
        before.complete_step(failure, after) ==> after.headers == before.headers,
        before.after_body(bytes).headers == before.headers,
        before.after_upload(room).headers == before.headers,
{
}

/// A transfer whose response body nobody reads any more ends as cancelled or well: when
/// the driver reports its outcome, the failure that counts is `Canceled`, or none.
pub proof fn lemma_dropped_body_cancels(handler: HandlerView, failure: Option<ErrorKind>)
    requires
        !handler.pipe.reader_open,
        handler.headers.is_settled(),
    ensures
        handler.final_failure(failure) == Some(ErrorKind::Canceled) || handler.final_failure(
            failure,
        ) is None,
{
}

} // verus!

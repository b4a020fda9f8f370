//! One upload request as a state machine. The caller owns the multipart
//! stream and the disk: it performs each [`Action`] and reports what happened
//! as the next [`Event`]. Every decision is taken here.
use crate::record::{
    records_view, render_records, stored_record, summary_text, text_view, RecordView,
    UploadResponse,
};
use crate::reply::{bad_request, bad_request_text, HttpReply, ReplyView, STATUS_OK};
use crate::storage::{
    fresh_identifier, is_identifier, path_text, sample_identifier, upload_path,
};
use vstd::prelude::*;

verus! {

/// Where a session stands.
#[derive(Clone, Copy, Debug, PartialEq, Eq, Structural)]
pub enum Phase {
    /// Waiting for the next field of the request, or for its end.
    AwaitingField,
    /// Inside a field, collecting its chunks.
    ReadingField,
    /// A file write has been asked for and not yet reported.
    Writing,
    /// The request has been answered or given up.
    Closed,
}

/// Why a request was given up without a reply of its own.
#[derive(Clone, Debug, PartialEq, Eq)]
pub enum UploadError {
    /// A field came without a name or without a file name.
    MissingFieldMetadata,
    /// The multipart stream failed while a field or a chunk was awaited.
    StreamFailure(String),
    /// The file could not be written.
    WriteFailure(String),
    /// The summary could not be printed.
    RenderFailure,
}

/// What the caller reports to the session.
#[derive(Clone, Debug, PartialEq, Eq)]
pub enum Event {
    /// The stream gave a field, with the name and file name it declares.
    Field { name: Option<String>, file_name: Option<String> },
    /// The stream has no more fields.
    EndOfFields,
    /// The current field gave a chunk of its body.
    Chunk(Vec<u8>),
    /// The current field has no more chunks.
    EndOfChunks,
    /// The file asked for was written.
    Written,
    /// The file asked for could not be written.
    WriteFailed(String),
    /// The stream failed.
    StreamFailed(String),
}

/// What the session asks of the caller.
#[derive(Clone, Debug, PartialEq, Eq)]
pub enum Action {
    /// Await the next field.
    NextField,
    /// Await the next chunk of the current field.
    NextChunk,
    /// Write `contents` to `path` in one go.
    WriteFile { path: String, contents: Vec<u8> },
    /// Answer the request.
    Reply(HttpReply),
    /// Give the request up with this error.
    Abort(UploadError),
}

/// Mathematical value of an [`UploadError`].
pub enum ErrorView {
    MissingFieldMetadata,
    StreamFailure(Seq<char>),
    WriteFailure(Seq<char>),
    RenderFailure,
}

/// Mathematical value of an [`Event`].
pub enum EventView {
    Field { name: Option<Seq<char>>, file_name: Option<Seq<char>> },
    EndOfFields,
    Chunk(Seq<u8>),
    EndOfChunks,
    Written,
    WriteFailed(Seq<char>),
    StreamFailed(Seq<char>),
}

/// Mathematical value of an [`Action`].
pub enum ActionView {
    NextField,
    NextChunk,
    WriteFile { path: Seq<char>, contents: Seq<u8> },
    Reply(ReplyView),
    Abort(ErrorView),
}

impl View for UploadError {
    type V = ErrorView;

    open spec fn view(&self) -> ErrorView {
        match *self {
            UploadError::MissingFieldMetadata => ErrorView::MissingFieldMetadata,
            UploadError::StreamFailure(cause) => ErrorView::StreamFailure(cause@),
            UploadError::WriteFailure(cause) => ErrorView::WriteFailure(cause@),
            UploadError::RenderFailure => ErrorView::RenderFailure,
        }
    }
}

impl View for Event {
    type V = EventView;

    open spec fn view(&self) -> EventView {
        match *self {
            Event::Field { name, file_name } => EventView::Field {
                name: text_view(name),
                file_name: text_view(file_name),
            },
            Event::EndOfFields => EventView::EndOfFields,
            Event::Chunk(bytes) => EventView::Chunk(bytes@),
            Event::EndOfChunks => EventView::EndOfChunks,
            Event::Written => EventView::Written,
            Event::WriteFailed(cause) => EventView::WriteFailed(cause@),
            Event::StreamFailed(cause) => EventView::StreamFailed(cause@),
        }
    }
}

impl View for Action {
    type V = ActionView;

    open spec fn view(&self) -> ActionView {
        match *self {
            Action::NextField => ActionView::NextField,
            Action::NextChunk => ActionView::NextChunk,
            Action::WriteFile { path, contents } => ActionView::WriteFile {
                path: path@,
                contents: contents@,
            },
            Action::Reply(reply) => ActionView::Reply(reply@),
            Action::Abort(error) => ActionView::Abort(error@),
        }
    }
}

/// The state of one upload request.
pub struct UploadSession {
    phase: Phase,
    records: Vec<UploadResponse>,
    name: String,
    file_name: String,
    buffer: Vec<u8>,
}

/// Mathematical value of an [`UploadSession`]: the phase, the records of the
/// fields stored so far in arrival order, and, inside a field, its name, its
/// file name and the bytes collected so far.
pub struct SessionView {
    pub phase: Phase,
    pub records: Seq<RecordView>,
    pub name: Seq<char>,
    pub file_name: Seq<char>,
    pub buffer: Seq<u8>,
}

impl View for UploadSession {
    type V = SessionView;

    closed spec fn view(&self) -> SessionView {
        SessionView {
            phase: self.phase,
            records: records_view(self.records@),
            name: self.name@,
            file_name: self.file_name@,
            buffer: self.buffer@,
        }
    }
}

/// A session at the start of a request: no record, no field.
pub open spec fn fresh_session() -> SessionView {
    SessionView {
        phase: Phase::AwaitingField,
        records: Seq::empty(),
        name: Seq::empty(),
        file_name: Seq::empty(),
        buffer: Seq::empty(),
    }
}

/// A session that is over. It holds nothing: what was collected is dropped.
pub open spec fn closed_session() -> SessionView {
    SessionView {
        phase: Phase::Closed,
        records: Seq::empty(),
        name: Seq::empty(),
        file_name: Seq::empty(),
        buffer: Seq::empty(),
    }
}

/// The most bytes a buffer can hold.
pub open spec fn buffer_limit() -> int {
    isize::MAX as int
}

/// Whether `event` can follow in state `s`: it answers the action that led
/// to `s`, and a chunk still fits in the buffer.
pub open spec fn expects(s: SessionView, event: EventView) -> bool {
    match event {
        EventView::Field { .. } | EventView::EndOfFields => s.phase == Phase::AwaitingField,
        EventView::Chunk(bytes) => s.phase == Phase::ReadingField && s.buffer.len() + bytes.len()
            <= buffer_limit(),
        EventView::EndOfChunks => s.phase == Phase::ReadingField,
        EventView::Written | EventView::WriteFailed(_) => s.phase == Phase::Writing,
        EventView::StreamFailed(_) => s.phase == Phase::AwaitingField || s.phase
            == Phase::ReadingField,
    }
}

/// The transition: the state and the action that follow `event` in state `s`.
/// `id` is the identifier drawn for the file when a field ends; `body` is the
/// printed summary when the request ends, if printing succeeded. Neither is
/// looked at elsewhere.
///
/// A field with both names opens an empty buffer. Chunks are appended to it.
/// At the end of the field the whole buffer is handed out to be written under
/// the upload path. Once written, the field's record joins the list. At the
/// end of the fields the summary is the reply. Any failure closes the session
/// and drops what was collected.
pub open spec fn next(
    s: SessionView,
    event: EventView,
    id: Seq<char>,
    body: Option<Seq<char>>,
) -> (SessionView, ActionView) {
    match event {
        EventView::Field { name: Some(name), file_name: Some(file_name) } => (
            SessionView { phase: Phase::ReadingField, name, file_name, buffer: Seq::empty(), ..s },
            ActionView::NextChunk,
        ),
        EventView::Field { .. } => (
            closed_session(),
            ActionView::Abort(ErrorView::MissingFieldMetadata),
        ),
        EventView::EndOfFields => (
            closed_session(),
            match body {
                Some(text) => ActionView::Reply(ReplyView { status: 200, body: text }),
                None => ActionView::Abort(ErrorView::RenderFailure),
            },
        ),
        EventView::Chunk(bytes) => (
            SessionView { buffer: s.buffer + bytes, ..s },
            ActionView::NextChunk,
        ),
        EventView::EndOfChunks => (
            SessionView { phase: Phase::Writing, buffer: Seq::empty(), ..s },
            ActionView::WriteFile { path: path_text(id, s.file_name), contents: s.buffer },
        ),
        EventView::Written => (
            SessionView {
                phase: Phase::AwaitingField,
                records: s.records.push(stored_record(s.name, s.file_name)),
                name: Seq::empty(),
                file_name: Seq::empty(),
                buffer: Seq::empty(),
            },
            ActionView::NextField,
        ),
        EventView::WriteFailed(cause) => (
            closed_session(),
            ActionView::Abort(ErrorView::WriteFailure(cause)),
        ),
        EventView::StreamFailed(cause) => (
            closed_session(),
            ActionView::Abort(ErrorView::StreamFailure(cause)),
        ),
    }
}

/// Appends `chunk` to `buffer` with `bytes::BufMut::put`, which for a `Vec<u8>`
/// reserves room and extends the vector by the slice. Trusted: the buffer is
/// what it was, followed by the chunk. The call panics where the new length
/// would pass `isize::MAX`, so that is asked of the caller.
#[verifier::external_body]
pub(crate) fn put_chunk(buffer: &mut Vec<u8>, chunk: &[u8])
    requires
        old(buffer)@.len() + chunk@.len() <= isize::MAX,
    ensures
        final(buffer)@ == old(buffer)@ + chunk@,
{
    bytes::BufMut::put(buffer, chunk)
}

impl UploadSession {
    /// Opens the session for a request. `framing` is what the multipart
    /// parser said of the request's framing: `Ok`, or its description of the
    /// fault. A refused request is answered at once with status 400, and the
    /// session is closed: no field is read and no file is asked for.
    pub fn begin(framing: Result<(), String>) -> (opened: (UploadSession, Action))
        ensures
            framing is Ok ==> opened.0@ == fresh_session() && opened.1@ == ActionView::NextField,
            framing matches Err(reason) ==> opened.0@ == closed_session() && opened.1@
                == ActionView::Reply(
                ReplyView { status: 400, body: bad_request_text(reason@) },
            ),
    {
        let mut session = UploadSession {
            phase: Phase::AwaitingField,
            records: Vec::new(),
            name: String::new(),
            file_name: String::new(),
            buffer: Vec::new(),
        };
        assert(records_view(session.records@) =~= Seq::empty());
        match framing {
            Ok(()) => (session, Action::NextField),
            Err(reason) => {
                session.phase = Phase::Closed;
                (session, Action::Reply(bad_request(reason.as_str())))
            },
        }
    }

    /// Where the session stands.
    pub fn phase(&self) -> (phase: Phase)
        ensures
            phase == self@.phase,
    {
        self.phase
    }

    /// How many fields have been stored so far.
    pub fn stored_count(&self) -> (count: usize)
        ensures
            count == self@.records.len(),
    {
        self.records.len()
    }

    /// Whether `event` can be handed to [`UploadSession::step`] now.
    pub fn expects(&self, event: &Event) -> (fits: bool)
        ensures
            fits == expects(self@, event@),
    {
        match event {
            Event::Field { .. } => self.phase == Phase::AwaitingField,
            Event::EndOfFields => self.phase == Phase::AwaitingField,
            Event::Chunk(bytes) => {
                let limit: usize = isize::MAX as usize;
                self.phase == Phase::ReadingField && self.buffer.len() <= limit && bytes.len()
                    <= limit - self.buffer.len()
            },
            Event::EndOfChunks => self.phase == Phase::ReadingField,
            Event::Written => self.phase == Phase::Writing,
            Event::WriteFailed(_) => self.phase == Phase::Writing,
            Event::StreamFailed(_) => self.phase == Phase::AwaitingField || self.phase
                == Phase::ReadingField,
        }
    }

    /// Drops everything and closes the session.
    fn close(&mut self)
        ensures
            final(self)@ == closed_session(),
    {
        self.phase = Phase::Closed;
        self.records = Vec::new();
        self.name = String::new();
        self.file_name = String::new();
        self.buffer = Vec::new();
        assert(records_view(self.records@) =~= Seq::empty());
    }

    /// The transition with its two outside results given: `id` is used where
    /// a field ends, `body` where the request ends.
    pub fn step_with(&mut self, event: Event, id: &str, body: Option<String>) -> (action: Action)
        requires
            expects(old(self)@, event@),
        ensures
            (final(self)@, action@) == next(old(self)@, event@, id@, text_view(body)),
    {
        match event {
            Event::Field { name: Some(name), file_name: Some(file_name) } => {
                self.phase = Phase::ReadingField;
                self.name = name;
                self.file_name = file_name;
                self.buffer = Vec::new();
                Action::NextChunk
            },
            Event::Field { .. } => {
                self.close();
                Action::Abort(UploadError::MissingFieldMetadata)
            },
            Event::EndOfFields => {
                self.close();
                match body {
                    Some(text) => Action::Reply(HttpReply { status: STATUS_OK, body: text }),
                    None => Action::Abort(UploadError::RenderFailure),
                }
            },
            Event::Chunk(bytes) => {
                put_chunk(&mut self.buffer, bytes.as_slice());
                Action::NextChunk
            },
            Event::EndOfChunks => {
                let path = upload_path(id, self.file_name.as_str());
                let mut contents: Vec<u8> = Vec::new();
                core::mem::swap(&mut self.buffer, &mut contents);
                self.phase = Phase::Writing;
                Action::WriteFile { path, contents }
            },
            Event::Written => {
                let mut name = String::new();
                let mut file_name = String::new();
                core::mem::swap(&mut self.name, &mut name);
                core::mem::swap(&mut self.file_name, &mut file_name);
                let ghost before = records_view(self.records@);
                self.records.push(UploadResponse::stored(name, file_name));
                self.phase = Phase::AwaitingField;
                self.buffer = Vec::new();
                assert(records_view(self.records@) =~= before.push(
                    stored_record(old(self)@.name, old(self)@.file_name),
                ));
                Action::NextField
            },
            Event::WriteFailed(cause) => {
                self.close();
                Action::Abort(UploadError::WriteFailure(cause))
            },
            Event::StreamFailed(cause) => {
                self.close();
                Action::Abort(UploadError::StreamFailure(cause))
            },
        }
    }

    /// The transition. Where a field ends, a fresh identifier is drawn for
    /// its file; where the request ends, the summary of the stored fields is
    /// printed. The result is that of [`next`] for some well-shaped
    /// identifier and for the summary of the records held.
    pub fn step(&mut self, event: Event) -> (action: Action)
        requires
            expects(old(self)@, event@),
        ensures
            exists|id: Seq<char>|
                is_identifier(id) && (final(self)@, action@) == #[trigger] next(
                    old(self)@,
                    event@,
                    id,
                    summary_text(old(self)@.records),
                ),
    {
        let id = match event {
            Event::EndOfChunks => fresh_identifier(),
            _ => String::new(),
        };
        let body = match event {
            Event::EndOfFields => render_records(&self.records),
            _ => None,
        };
        let ghost drawn = if event@ is EndOfChunks {
            id@
        } else {
            sample_identifier()
        };
        let action = self.step_with(event, id.as_str(), body);
        proof {
            assert(is_identifier(drawn));
            assert((self@, action@) == next(
                old(self)@,
                event@,
                drawn,
                summary_text(old(self)@.records),
            ));
        }
        action
    }
}

} // verus!

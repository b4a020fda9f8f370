//! Whole requests: what the transition of a session gives when the events of
//! one field, or of a list of fields, are fed to it in order.
use crate::record::{stored_record, RecordView};
use crate::reply::ReplyView;
use crate::session::{
    closed_session, expects, fresh_session, next, ActionView, EventView, Phase, SessionView,
};
use crate::storage::path_text;
use vstd::prelude::*;

verus! {

/// A multipart field as the client sent it: its two names and its body, cut
/// into chunks in whatever way the stream delivered it.
pub struct FieldView {
    pub name: Seq<char>,
    pub file_name: Seq<char>,
    pub chunks: Seq<Seq<u8>>,
}

/// The body of a field: its chunks, one after the other.
pub open spec fn joined(chunks: Seq<Seq<u8>>) -> Seq<u8>
    decreases chunks.len(),
{
    if chunks.len() == 0 {
        Seq::empty()
    } else {
        chunks.first() + joined(chunks.drop_first())
    }
}

/// The state after each of `chunks` was reported in turn.
pub open spec fn after_chunks(s: SessionView, chunks: Seq<Seq<u8>>) -> SessionView
    decreases chunks.len(),
{
    if chunks.len() == 0 {
        s
    } else {
        after_chunks(
            next(s, EventView::Chunk(chunks.first()), Seq::empty(), None).0,
            chunks.drop_first(),
        )
    }
}

/// The event that announces `field`.
pub open spec fn field_event(field: FieldView) -> EventView {
    EventView::Field { name: Some(field.name), file_name: Some(field.file_name) }
}

/// The state after `field` was announced and all its chunks were reported.
pub open spec fn field_read(s: SessionView, field: FieldView) -> SessionView {
    after_chunks(next(s, field_event(field), Seq::empty(), None).0, field.chunks)
}

/// The action that ends `field` when `id` is drawn for it.
pub open spec fn field_write(s: SessionView, field: FieldView, id: Seq<char>) -> ActionView {
    next(field_read(s, field), EventView::EndOfChunks, id, None).1
}

/// The state after `field` was read and its file was written.
pub open spec fn after_field(s: SessionView, field: FieldView) -> SessionView {
    let asked = next(field_read(s, field), EventView::EndOfChunks, Seq::empty(), None).0;
    next(asked, EventView::Written, Seq::empty(), None).0
}

/// The state after each of `fields` was read and written in turn.
pub open spec fn after_fields(s: SessionView, fields: Seq<FieldView>) -> SessionView
    decreases fields.len(),
{
    if fields.len() == 0 {
        s
    } else {
        after_fields(after_field(s, fields.first()), fields.drop_first())
    }
}

/// The records that report `fields`, in order.
pub open spec fn field_records(fields: Seq<FieldView>) -> Seq<RecordView> {
    fields.map_values(|f: FieldView| stored_record(f.name, f.file_name))
}

/// Chunks reported inside a field are collected in order behind what the
/// buffer held, and change nothing else.
pub proof fn lemma_chunks_collected(s: SessionView, chunks: Seq<Seq<u8>>)
    ensures
        after_chunks(s, chunks) == (SessionView { buffer: s.buffer + joined(chunks), ..s }),
    decreases chunks.len(),
{
    if chunks.len() == 0 {
        assert(s.buffer + joined(chunks) =~= s.buffer);
    } else {
        let grown = next(s, EventView::Chunk(chunks.first()), Seq::empty(), None).0;
        lemma_chunks_collected(grown, chunks.drop_first());
        assert((s.buffer + chunks.first()) + joined(chunks.drop_first()) =~= s.buffer + joined(
            chunks,
        ));
    }
}

/// One field, wherever it stands in the request and whatever came before
/// it: the file asked for holds exactly the field's own bytes, empty or not,
/// under the path made of the identifier drawn and the declared file name;
/// and once it is written, the field's record is the new last record and the
/// session waits for the next field with an empty buffer. Each event of the
/// field finds the session in the phase that expects it.
pub proof fn lemma_field_stored(s: SessionView, field: FieldView, id: Seq<char>)
    requires
        s.phase == Phase::AwaitingField,
    ensures
        expects(s, field_event(field)),
        field_read(s, field).phase == Phase::ReadingField,
        field_write(s, field, id) == (ActionView::WriteFile {
            path: path_text(id, field.file_name),
            contents: joined(field.chunks),
        }),
        next(field_read(s, field), EventView::EndOfChunks, id, None).0.phase == Phase::Writing,
        after_field(s, field) == (SessionView {
            phase: Phase::AwaitingField,
            records: s.records.push(stored_record(field.name, field.file_name)),
            name: Seq::empty(),
            file_name: Seq::empty(),
            buffer: Seq::empty(),
        }),
{
    let opened = next(s, field_event(field), Seq::empty(), None).0;
    lemma_chunks_collected(opened, field.chunks);
    assert(opened.buffer + joined(field.chunks) =~= joined(field.chunks));
}

/// Fields stored one after the other add their records in arrival order
/// behind those already there, and leave the session waiting for a field.
pub proof fn lemma_fields_stored(s: SessionView, fields: Seq<FieldView>)
    requires
        s.phase == Phase::AwaitingField,
    ensures
        after_fields(s, fields).phase == Phase::AwaitingField,
        after_fields(s, fields).records == s.records + field_records(fields),
    decreases fields.len(),
{
    if fields.len() == 0 {
        assert(s.records + field_records(fields) =~= s.records);
    } else {
        let first = fields.first();
        let rest = fields.drop_first();
        lemma_field_stored(s, first, Seq::empty());
        lemma_fields_stored(after_field(s, first), rest);
        assert(s.records.push(stored_record(first.name, first.file_name)) + field_records(rest)
            =~= s.records + field_records(fields));
    }
}

/// A request of well-formed fields ends with exactly one record per field,
/// in the order of the fields, each with the name and the file name that its
/// field declared; and the end of the fields is answered with status 200 and
/// the printed summary of those records as the body.
pub proof fn lemma_upload_summary(fields: Seq<FieldView>, id: Seq<char>, body: Seq<char>)
    ensures
        ({
            let s = after_fields(fresh_session(), fields);
            &&& expects(s, EventView::EndOfFields)
            &&& s.records == field_records(fields)
            &&& s.records.len() == fields.len()
            &&& forall|i: int|
                0 <= i < fields.len() ==> (#[trigger] s.records[i]).name == fields[i].name
                    && s.records[i].filename == fields[i].file_name
            &&& next(s, EventView::EndOfFields, id, Some(body)) == (
                closed_session(),
                ActionView::Reply(ReplyView { status: 200, body }),
            )
        }),
{
    lemma_fields_stored(fresh_session(), fields);
    assert(fresh_session().records + field_records(fields) =~= field_records(fields));
}

/// In a request of several fields, the file of each holds that field's bytes
/// alone: nothing of the fields before it is carried over.
pub proof fn lemma_each_file_holds_its_field(fields: Seq<FieldView>, k: int, id: Seq<char>)
    requires
        0 <= k < fields.len(),
    ensures
        field_write(after_fields(fresh_session(), fields.take(k)), fields[k], id) == (
            ActionView::WriteFile {
                path: path_text(id, fields[k].file_name),
                contents: joined(fields[k].chunks),
            }
        ),
{
    lemma_fields_stored(fresh_session(), fields.take(k));
    lemma_field_stored(after_fields(fresh_session(), fields.take(k)), fields[k], id);
}

/// A closed session expects no event, so nothing can follow a refusal or a
/// failure: no field is read and no file is asked for.
pub proof fn lemma_closed_expects_nothing(event: EventView)
    ensures
        !expects(closed_session(), event),
{
}

/// A file is asked for only at the end of a field's chunks.
pub proof fn lemma_write_only_after_chunks(
    s: SessionView,
    event: EventView,
    id: Seq<char>,
    body: Option<Seq<char>>,
)
    ensures
        next(s, event, id, body).1 is WriteFile <==> event is EndOfChunks,
{
}

} // verus!

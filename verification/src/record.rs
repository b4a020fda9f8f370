//! The record kept for each stored field, and the JSON text that lists them.
use vstd::prelude::*;

verus! {

/// What is reported for one stored field.
#[derive(Clone, Debug, PartialEq, Eq)]
pub struct UploadResponse {
    pub name: String,
    pub filename: String,
    pub status: String,
}

/// Mathematical value of an [`UploadResponse`].
pub struct RecordView {
    pub name: Seq<char>,
    pub filename: Seq<char>,
    pub status: Seq<char>,
}

impl View for UploadResponse {
    type V = RecordView;

    open spec fn view(&self) -> RecordView {
        RecordView { name: self.name@, filename: self.filename@, status: self.status@ }
    }
}

/// The values of a list of records, in order.
pub open spec fn records_view(records: Seq<UploadResponse>) -> Seq<RecordView> {
    records.map_values(|r: UploadResponse| r@)
}

/// The status text of a field that was stored.
pub open spec fn stored_status() -> Seq<char> {
    "File uploaded successfully"@
}

/// The record of a stored field.
pub open spec fn stored_record(name: Seq<char>, filename: Seq<char>) -> RecordView {
    RecordView { name, filename, status: stored_status() }
}

/// One JSON object as its members: key and text, in the order given.
pub open spec fn record_row(record: RecordView) -> Seq<(Seq<char>, Seq<char>)> {
    seq![("name"@, record.name), ("filename"@, record.filename), ("status"@, record.status)]
}

/// The members of each record, in order.
pub open spec fn record_rows(records: Seq<RecordView>) -> Seq<Seq<(Seq<char>, Seq<char>)>> {
    records.map_values(|r: RecordView| record_row(r))
}

/// The values of the members of one object.
pub open spec fn row_view(row: Seq<(String, String)>) -> Seq<(Seq<char>, Seq<char>)> {
    row.map_values(|member: (String, String)| (member.0@, member.1@))
}

/// The values of the members of a list of objects.
pub open spec fn rows_view(rows: Seq<Vec<(String, String)>>) -> Seq<Seq<(Seq<char>, Seq<char>)>> {
    rows.map_values(|row: Vec<(String, String)>| row_view(row@))
}

/// The value of a text that may be absent.
pub open spec fn text_view(text: Option<String>) -> Option<Seq<char>> {
    match text {
        Some(t) => Some(t@),
        None => None,
    }
}

/// What `serde_json::to_string_pretty` gives for an array of objects whose
/// members are all strings: the pretty-printed JSON text, or nothing where
/// the printer reports an error.
pub uninterp spec fn pretty_json_text(rows: Seq<Seq<(Seq<char>, Seq<char>)>>) -> Option<
    Seq<char>,
>;

/// The summary of a list of records: the printed array of their objects.
pub open spec fn summary_text(records: Seq<RecordView>) -> Option<Seq<char>> {
    pretty_json_text(record_rows(records))
}

/// Makes a `serde_json::Value` array of objects with string members out of
/// `rows` and prints it with `serde_json::to_string_pretty`; an error of the
/// printer becomes `None`. Trusted: the outcome depends on the rows alone.
/// Nothing is claimed of the text itself, nor that the printer succeeds.
#[verifier::external_body]
pub(crate) fn pretty_json(rows: &Vec<Vec<(String, String)>>) -> (text: Option<String>)
    ensures
        text_view(text) == pretty_json_text(rows_view(rows@)),
{
    let mut array: Vec<serde_json::Value> = Vec::new();
    for row in rows.iter() {
        let mut object = serde_json::Map::new();
        for (key, text) in row.iter() {
            object.insert(key.clone(), serde_json::Value::String(text.clone()));
        }
        array.push(serde_json::Value::Object(object));
    }
    serde_json::to_string_pretty(&array).ok()
}

impl UploadResponse {
    /// A record with the three texts given.
    pub fn new(name: String, filename: String, status: String) -> (record: Self)
        ensures
            record@ == (RecordView { name: name@, filename: filename@, status: status@ }),
    {
        UploadResponse { name, filename, status }
    }

    /// The record of a field that was stored under `filename`.
    pub fn stored(name: String, filename: String) -> (record: Self)
        ensures
            record@ == stored_record(name@, filename@),
    {
        UploadResponse::new(name, filename, String::from_str("File uploaded successfully"))
    }

    /// The members of the JSON object that reports this record.
    pub fn row(&self) -> (row: Vec<(String, String)>)
        ensures
            row_view(row@) == record_row(self@),
    {
        let mut row: Vec<(String, String)> = Vec::new();
        row.push((String::from_str("name"), self.name.clone()));
        row.push((String::from_str("filename"), self.filename.clone()));
        row.push((String::from_str("status"), self.status.clone()));
        proof {
            assert(row_view(row@) =~= record_row(self@));
        }
        row
    }
}

/// The JSON text for a list of records: an array with one object per record,
/// in order, each with its `name`, `filename` and `status`. `None` only where
/// the printer gave up.
pub fn render_records(records: &Vec<UploadResponse>) -> (text: Option<String>)
    ensures
        text_view(text) == summary_text(records_view(records@)),
{
    let mut rows: Vec<Vec<(String, String)>> = Vec::new();
    let mut i: usize = 0;
    while i < records.len()
        invariant
            i <= records.len(),
            rows_view(rows@) == record_rows(records_view(records@.take(i as int))),
        decreases records.len() - i,
    {
        let row = records[i].row();
        let ghost done = rows_view(rows@);
        rows.push(row);
        proof {
            let shorter = records_view(records@.take(i as int));
            let longer = records_view(records@.take(i + 1));
            assert(longer =~= shorter.push(records@[i as int]@));
            assert(record_rows(longer) =~= record_rows(shorter).push(record_row(records@[i as int]@)));
            assert(rows_view(rows@) =~= done.push(row_view(row@)));
        }
        i += 1;
    }
    proof {
        assert(records@.take(i as int) =~= records@);
    }
    pretty_json(&rows)
}

} // verus!

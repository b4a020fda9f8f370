use upload_service::session::{Action, Event, Phase, UploadError, UploadSession};

fn field(name: &str, file_name: &str) -> Event {
    Event::Field { name: Some(name.to_string()), file_name: Some(file_name.to_string()) }
}

fn open() -> UploadSession {
    let (session, action) = UploadSession::begin(Ok(()));
    assert_eq!(action, Action::NextField);
    assert_eq!(session.phase(), Phase::AwaitingField);
    session
}

fn store(session: &mut UploadSession, name: &str, file_name: &str, chunks: &[&[u8]]) -> (String, Vec<u8>) {
    assert_eq!(session.step(field(name, file_name)), Action::NextChunk);
    for chunk in chunks {
        assert!(session.expects(&Event::Chunk(chunk.to_vec())));
        assert_eq!(session.step(Event::Chunk(chunk.to_vec())), Action::NextChunk);
    }
    let written = match session.step(Event::EndOfChunks) {
        Action::WriteFile { path, contents } => (path, contents),
        other => panic!("no write asked for: {:?}", other),
    };
    assert_eq!(session.phase(), Phase::Writing);
    assert_eq!(session.step(Event::Written), Action::NextField);
    written
}

fn identifier_of<'a>(path: &'a str, file_name: &str) -> &'a str {
    let rest = path.strip_prefix("./files/").unwrap();
    let id = rest.strip_suffix(file_name).unwrap().strip_suffix("_").unwrap();
    assert_eq!(id.len(), 36);
    id
}

#[test]
fn refused_framing_is_answered_400_and_closes_the_session() {
    let (session, action) = UploadSession::begin(Err("no multipart boundary".to_string()));
    match action {
        Action::Reply(reply) => {
            assert_eq!(reply.status, 400);
            assert_eq!(reply.body, "Bad request: no multipart boundary");
        }
        other => panic!("no reply: {:?}", other),
    }
    assert_eq!(session.phase(), Phase::Closed);
    assert_eq!(session.stored_count(), 0);
    assert!(!session.expects(&field("a", "b")));
    assert!(!session.expects(&Event::EndOfFields));
    assert!(!session.expects(&Event::Chunk(vec![1])));
    assert!(!session.expects(&Event::EndOfChunks));
    assert!(!session.expects(&Event::Written));
    assert!(!session.expects(&Event::WriteFailed(String::new())));
    assert!(!session.expects(&Event::StreamFailed(String::new())));
}

#[test]
fn one_field_is_written_whole_under_a_fresh_identifier() {
    let mut session = open();
    let (path, contents) = store(&mut session, "doc", "notes.txt", &[b"hello ", b"", b"world"]);
    assert_eq!(contents, b"hello world".to_vec());
    let id = identifier_of(&path, "notes.txt");
    let parsed = uuid::Uuid::parse_str(id).unwrap();
    assert_eq!(parsed.get_version_num(), 4);
    assert_eq!(parsed.to_string(), id);
    for (i, c) in id.chars().enumerate() {
        if i == 8 || i == 13 || i == 18 || i == 23 {
            assert_eq!(c, '-');
        } else {
            assert!(c.is_ascii_digit() || ('a'..='f').contains(&c));
        }
    }
    assert_eq!(id.chars().nth(14), Some('4'));
    assert!(matches!(id.chars().nth(19), Some('8') | Some('9') | Some('a') | Some('b')));
    assert_eq!(session.stored_count(), 1);
    assert_eq!(session.phase(), Phase::AwaitingField);
}

#[test]
fn each_of_two_files_holds_its_own_field() {
    let mut session = open();
    let (path_a, contents_a) = store(&mut session, "a", "a.bin", &[&[1, 2, 3]]);
    let (path_b, contents_b) = store(&mut session, "b", "b.bin", &[&[9], &[8, 7]]);
    assert_eq!(contents_a, vec![1, 2, 3]);
    assert_eq!(contents_b, vec![9, 8, 7]);
    assert_ne!(path_a, path_b);
    assert!(path_a.ends_with("_a.bin"));
    assert!(path_b.ends_with("_b.bin"));
    assert_eq!(session.stored_count(), 2);
}

#[test]
fn an_empty_field_is_written_empty() {
    let mut session = open();
    let (_, first) = store(&mut session, "full", "full.bin", &[&[0, 255, 10, 13]]);
    let (path, second) = store(&mut session, "empty", "empty.bin", &[]);
    assert_eq!(first, vec![0, 255, 10, 13]);
    assert_eq!(second, Vec::<u8>::new());
    assert!(path.starts_with("./files/"));
}

#[test]
fn the_same_file_name_twice_gives_two_paths() {
    let mut session = open();
    let (path_a, _) = store(&mut session, "x", "same.txt", &[b"one"]);
    let (path_b, _) = store(&mut session, "x", "same.txt", &[b"two"]);
    assert_ne!(path_a, path_b);
    assert_ne!(identifier_of(&path_a, "same.txt"), identifier_of(&path_b, "same.txt"));
}

#[test]
fn the_file_name_is_used_unfiltered() {
    let mut session = open();
    let (path, _) = store(&mut session, "x", "../up.txt", &[b"z"]);
    assert!(path.ends_with("_../up.txt"));
    identifier_of(&path, "../up.txt");
}

#[test]
fn the_summary_lists_the_fields_in_order() {
    let mut session = open();
    store(&mut session, "first", "a.txt", &[b"1"]);
    store(&mut session, "second", "b.txt", &[b"2"]);
    store(&mut session, "first", "a.txt", &[b"3"]);
    assert!(session.expects(&Event::EndOfFields));
    let reply = match session.step(Event::EndOfFields) {
        Action::Reply(reply) => reply,
        other => panic!("no reply: {:?}", other),
    };
    assert_eq!(reply.status, 200);
    let value: serde_json::Value = serde_json::from_str(&reply.body).unwrap();
    let array = value.as_array().unwrap();
    assert_eq!(array.len(), 3);
    let names: Vec<&str> = array.iter().map(|r| r["name"].as_str().unwrap()).collect();
    let files: Vec<&str> = array.iter().map(|r| r["filename"].as_str().unwrap()).collect();
    assert_eq!(names, vec!["first", "second", "first"]);
    assert_eq!(files, vec!["a.txt", "b.txt", "a.txt"]);
    for record in array {
        assert_eq!(record["status"].as_str(), Some("File uploaded successfully"));
    }
    assert_eq!(session.phase(), Phase::Closed);
    assert_eq!(session.stored_count(), 0);
}

#[test]
fn one_field_gives_this_exact_summary() {
    let mut session = open();
    store(&mut session, "file", "a.txt", &[b"abc"]);
    let expected = "[\n  {\n    \"filename\": \"a.txt\",\n    \"name\": \"file\",\n    \"status\": \"File uploaded successfully\"\n  }\n]";
    match session.step(Event::EndOfFields) {
        Action::Reply(reply) => {
            assert_eq!(reply.status, 200);
            assert_eq!(reply.body, expected);
        }
        other => panic!("no reply: {:?}", other),
    }
}

#[test]
fn a_request_without_fields_is_answered_with_an_empty_array() {
    let mut session = open();
    match session.step(Event::EndOfFields) {
        Action::Reply(reply) => {
            assert_eq!(reply.status, 200);
            assert_eq!(reply.body, "[]");
        }
        other => panic!("no reply: {:?}", other),
    }
}

#[test]
fn a_field_without_a_name_aborts_the_request() {
    let mut session = open();
    store(&mut session, "kept", "kept.txt", &[b"k"]);
    let action = session.step(Event::Field { name: None, file_name: Some("a.txt".to_string()) });
    assert_eq!(action, Action::Abort(UploadError::MissingFieldMetadata));
    assert_eq!(session.phase(), Phase::Closed);
    assert_eq!(session.stored_count(), 0);
}

#[test]
fn a_field_without_a_file_name_aborts_the_request() {
    let mut session = open();
    let action = session.step(Event::Field { name: Some("plain".to_string()), file_name: None });
    assert_eq!(action, Action::Abort(UploadError::MissingFieldMetadata));
    assert_eq!(session.phase(), Phase::Closed);
    let mut other = open();
    let action = other.step(Event::Field { name: None, file_name: None });
    assert_eq!(action, Action::Abort(UploadError::MissingFieldMetadata));
}

#[test]
fn a_failed_write_aborts_with_its_cause() {
    let mut session = open();
    store(&mut session, "ok", "ok.txt", &[b"fine"]);
    assert_eq!(session.step(field("bad", "bad.txt")), Action::NextChunk);
    assert_eq!(session.step(Event::Chunk(vec![1])), Action::NextChunk);
    match session.step(Event::EndOfChunks) {
        Action::WriteFile { contents, .. } => assert_eq!(contents, vec![1]),
        other => panic!("no write asked for: {:?}", other),
    }
    let action = session.step(Event::WriteFailed("disk full".to_string()));
    assert_eq!(action, Action::Abort(UploadError::WriteFailure("disk full".to_string())));
    assert_eq!(session.phase(), Phase::Closed);
    assert_eq!(session.stored_count(), 0);
    assert!(!session.expects(&Event::EndOfFields));
}

#[test]
fn a_failed_stream_aborts_with_its_cause() {
    let mut waiting = open();
    let action = waiting.step(Event::StreamFailed("incomplete".to_string()));
    assert_eq!(action, Action::Abort(UploadError::StreamFailure("incomplete".to_string())));
    assert_eq!(waiting.phase(), Phase::Closed);

    let mut reading = open();
    assert_eq!(reading.step(field("a", "a.txt")), Action::NextChunk);
    assert_eq!(reading.step(Event::Chunk(vec![5, 6])), Action::NextChunk);
    let action = reading.step(Event::StreamFailed("reset".to_string()));
    assert_eq!(action, Action::Abort(UploadError::StreamFailure("reset".to_string())));
    assert_eq!(reading.phase(), Phase::Closed);
}

#[test]
fn events_are_expected_only_in_their_phase() {
    let mut session = open();
    assert!(session.expects(&field("a", "b")));
    assert!(session.expects(&Event::EndOfFields));
    assert!(session.expects(&Event::StreamFailed(String::new())));
    assert!(!session.expects(&Event::Chunk(vec![])));
    assert!(!session.expects(&Event::EndOfChunks));
    assert!(!session.expects(&Event::Written));
    assert!(!session.expects(&Event::WriteFailed(String::new())));

    session.step(field("a", "b"));
    assert_eq!(session.phase(), Phase::ReadingField);
    assert!(session.expects(&Event::Chunk(vec![1, 2])));
    assert!(session.expects(&Event::EndOfChunks));
    assert!(session.expects(&Event::StreamFailed(String::new())));
    assert!(!session.expects(&field("c", "d")));
    assert!(!session.expects(&Event::EndOfFields));
    assert!(!session.expects(&Event::Written));

    session.step(Event::EndOfChunks);
    assert_eq!(session.phase(), Phase::Writing);
    assert!(session.expects(&Event::Written));
    assert!(session.expects(&Event::WriteFailed(String::new())));
    assert!(!session.expects(&Event::StreamFailed(String::new())));
    assert!(!session.expects(&Event::Chunk(vec![])));
    assert!(!session.expects(&Event::EndOfFields));
}

#[test]
fn step_with_uses_the_identifier_and_the_body_it_is_given() {
    let mut session = open();
    assert_eq!(session.step_with(field("n", "f.txt"), "unused", None), Action::NextChunk);
    assert_eq!(session.step_with(Event::Chunk(vec![7, 8]), "unused", None), Action::NextChunk);
    assert_eq!(
        session.step_with(Event::EndOfChunks, "the-id", None),
        Action::WriteFile { path: "./files/the-id_f.txt".to_string(), contents: vec![7, 8] }
    );
    assert_eq!(session.step_with(Event::Written, "unused", None), Action::NextField);
    assert_eq!(session.stored_count(), 1);
    match session.step_with(Event::EndOfFields, "unused", Some("[1]".to_string())) {
        Action::Reply(reply) => {
            assert_eq!(reply.status, 200);
            assert_eq!(reply.body, "[1]");
        }
        other => panic!("no reply: {:?}", other),
    }
    let mut failing = open();
    assert_eq!(
        failing.step_with(Event::EndOfFields, "unused", None),
        Action::Abort(UploadError::RenderFailure)
    );
    assert_eq!(failing.phase(), Phase::Closed);
}

//! Shape of the events each ingress constructor builds: which of the four
//! cases it is, what payload it carries, and how two calls on equal
//! arguments relate.

use beelay_events::Audience;
use beelay_events::Command;
use beelay_events::Commit;
use beelay_events::Event;
use beelay_events::IdGenerator;
use beelay_events::IoResult;
use beelay_events::SignedMessage;
use beelay_events::StreamDirection;

#[test]
fn io_complete_is_exactly_an_io_completion() {
    let result = IoResult { task_id: 42, success: true, payload: Some(vec![1, 2, 3]) };
    let ev = Event::io_complete(result.clone());
    assert_eq!(ev.as_io_complete(), Some(&result));
    assert!(ev.as_begin_command().is_none());
    assert!(ev.as_stream_message().is_none());
    assert!(!ev.is_tick());
    assert!(ev.command_id().is_none());
}

#[test]
fn io_complete_keeps_a_failure_outcome() {
    let result = IoResult { task_id: 7, success: false, payload: None };
    let ev = Event::io_complete(result.clone());
    assert_eq!(ev.as_io_complete(), Some(&result));
}

#[test]
fn handle_message_is_exactly_a_stream_message() {
    let mut ids = IdGenerator::new();
    let stream = ids.fresh_stream_id();
    let ev = Event::handle_message(stream, vec![9, 8, 7]);
    let (carried_stream, bytes) = ev.as_stream_message().expect("a stream message");
    assert_eq!(carried_stream, stream);
    assert_eq!(bytes.as_slice(), &[9, 8, 7]);
    assert!(ev.as_io_complete().is_none());
    assert!(ev.as_begin_command().is_none());
    assert!(!ev.is_tick());
}

#[test]
fn handle_message_keeps_empty_payloads() {
    let mut ids = IdGenerator::new();
    let stream = ids.fresh_stream_id();
    let ev = Event::handle_message(stream, Vec::new());
    let (_, bytes) = ev.as_stream_message().expect("a stream message");
    assert!(bytes.is_empty());
}

#[test]
fn tick_is_exactly_a_tick() {
    let ev = Event::tick();
    assert!(ev.is_tick());
    assert!(ev.as_io_complete().is_none());
    assert!(ev.as_begin_command().is_none());
    assert!(ev.as_stream_message().is_none());
    assert!(ev.command_id().is_none());
}

#[test]
fn submissions_are_exactly_submissions() {
    let mut ids = IdGenerator::new();
    let doc = ids.fresh_document_id();
    let (_, ev) = Event::query_status(&mut ids, doc);
    assert!(ev.as_begin_command().is_some());
    assert!(ev.as_io_complete().is_none());
    assert!(ev.as_stream_message().is_none());
    assert!(!ev.is_tick());
}

#[test]
fn load_doc_commands_differ_only_in_the_decrypt_flag() {
    let mut ids = IdGenerator::new();
    let doc = ids.fresh_document_id();
    let (_, plain_ev) = Event::load_doc(&mut ids, doc);
    let (_, encrypted_ev) = Event::load_doc_encrypted(&mut ids, doc);
    let (_, plain_cmd) = plain_ev.as_begin_command().expect("a submission event");
    let (_, encrypted_cmd) = encrypted_ev.as_begin_command().expect("a submission event");
    match (plain_cmd, encrypted_cmd) {
        (
            Command::LoadDoc { doc_id: plain_doc, decrypt: plain_flag },
            Command::LoadDoc { doc_id: encrypted_doc, decrypt: encrypted_flag },
        ) => {
            assert_eq!(plain_doc, encrypted_doc);
            assert!(*plain_flag);
            assert!(!*encrypted_flag);
        }
        other => panic!("expected two LoadDoc commands, got {:?}", other),
    }
}

#[test]
fn equal_arguments_build_commands_differing_only_in_the_minted_id() {
    let mut ids = IdGenerator::new();
    let message = SignedMessage { bytes: vec![4, 5, 6] };
    let (first_id, first_ev) =
        Event::handle_request(&mut ids, message.clone(), Some(String::from("sync")));
    let (second_id, second_ev) =
        Event::handle_request(&mut ids, message, Some(String::from("sync")));
    let (first_inner, first_cmd) = first_ev.as_begin_command().expect("a submission event");
    let (second_inner, second_cmd) = second_ev.as_begin_command().expect("a submission event");
    assert_eq!(first_cmd, second_cmd);
    assert_ne!(first_id, second_id);
    assert_eq!(first_inner, first_id);
    assert_eq!(second_inner, second_id);
}

#[test]
fn create_stream_keeps_its_direction() {
    let mut ids = IdGenerator::new();
    let outward = StreamDirection::Connecting {
        remote_audience: Audience { name: String::from("peer-b") },
    };
    let (_, ev) = Event::create_stream(&mut ids, outward.clone());
    let (_, cmd) = ev.as_begin_command().expect("a submission event");
    assert_eq!(*cmd, Command::CreateStream(outward));

    let inward = StreamDirection::Accepting { receive_audience: Some(String::from("sync")) };
    let (_, ev) = Event::create_stream(&mut ids, inward.clone());
    let (_, cmd) = ev.as_begin_command().expect("a submission event");
    assert_eq!(*cmd, Command::CreateStream(inward));
}

#[test]
fn create_doc_keeps_commit_and_owners() {
    let mut ids = IdGenerator::new();
    let owner = ids.fresh_entity_id();
    let initial = Commit { parents: vec![3, 4], hash: 5, contents: vec![6] };
    let (_, ev) = Event::create_doc(&mut ids, initial.clone(), vec![owner]);
    let (_, cmd) = ev.as_begin_command().expect("a submission event");
    assert_eq!(*cmd, Command::CreateDoc { initial_commit: initial, other_owners: vec![owner] });
}

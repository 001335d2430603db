//! The states of a call, the failures of each step, and the checks on what
//! the engine hands back.

use extractous::{
    reader_result, recursive_result, status_result, string_result, Argument, Call, CallAction,
    CallEvent, CallState, Entry, Error, ErrorKind, Extraction, ExtractionRequest, Extractor,
    Operation, RawDocument, RawReply, ReadPhase, ResultShape, Session, SessionAction,
};

type Reply = RawReply<u32>;

fn entries() -> Vec<Entry> {
    vec![("k".to_string(), vec!["v".to_string()])]
}

fn text_reply() -> Reply {
    RawReply::Text { content: Some("text".to_string()), metadata: Some(entries()) }
}

fn malformed<T: std::fmt::Debug>(result: Result<T, Error>, message: &str) {
    assert_eq!(result.unwrap_err(), Error::Malformed(message.to_string()));
}

#[test]
fn string_result_of_a_complete_reply() {
    let (content, metadata) = string_result(text_reply()).unwrap();
    assert_eq!(content, "text");
    assert_eq!(metadata.len(), 1);
    assert_eq!(metadata.get("k"), Some(&vec!["v".to_string()]));
}

#[test]
fn string_result_with_empty_parts_is_complete() {
    let reply: Reply = RawReply::Text { content: Some(String::new()), metadata: Some(vec![]) };
    let (content, metadata) = string_result(reply).unwrap();
    assert_eq!(content, "");
    assert!(metadata.is_empty());
}

#[test]
fn string_result_of_incomplete_replies() {
    let reply: Reply = RawReply::Text { content: None, metadata: Some(entries()) };
    malformed(string_result(reply), "the string result has no content");
    let reply: Reply = RawReply::Text { content: Some("t".to_string()), metadata: None };
    malformed(string_result(reply), "the string result has no metadata");
    let reply: Reply = RawReply::Text { content: None, metadata: None };
    malformed(string_result(reply), "the string result has no content");
    malformed(string_result(Reply::Unrecognized), "the reply is not a string result");
    let reply: Reply = RawReply::Documents { documents: Some(vec![]) };
    malformed(string_result(reply), "the reply is not a string result");
    let reply: Reply = RawReply::Reader { reader: Some(1), metadata: Some(entries()) };
    malformed(string_result(reply), "the reply is not a string result");
}

#[test]
fn status_result_hands_on_the_text() {
    assert_eq!(status_result(text_reply()), Ok("text".to_string()));
    let reply: Reply = RawReply::Text { content: Some("t".to_string()), metadata: None };
    malformed(status_result(reply), "the string result has no metadata");
    malformed(status_result(Reply::Unrecognized), "the reply is not a string result");
}

#[test]
fn reader_result_of_a_complete_reply() {
    let reply: Reply = RawReply::Reader { reader: Some(42), metadata: Some(entries()) };
    let (reader, metadata) = reader_result(reply).unwrap();
    assert_eq!(*reader.handle(), 42);
    assert_eq!(reader.capacity(), 0);
    assert_eq!(reader.phase(), ReadPhase::Idle);
    assert_eq!(metadata.len(), 1);
}

#[test]
fn reader_result_of_incomplete_replies() {
    let reply: Reply = RawReply::Reader { reader: None, metadata: Some(entries()) };
    malformed(reader_result(reply), "the streamed result has no reader");
    let reply: Reply = RawReply::Reader { reader: Some(1), metadata: None };
    malformed(reader_result(reply), "the streamed result has no metadata");
    malformed(reader_result(text_reply()), "the reply is not a streamed result");
    malformed(reader_result(Reply::Unrecognized), "the reply is not a streamed result");
}

fn raw(content: &str) -> RawDocument {
    RawDocument { content: Some(content.to_string()), metadata: Some(entries()) }
}

#[test]
fn recursive_result_keeps_the_order() {
    let reply: Reply = RawReply::Documents {
        documents: Some(vec![raw("container"), raw("first"), raw("second"), raw("third")]),
    };
    let extraction = recursive_result(reply).unwrap();
    assert_eq!(extraction.total_count(), 4);
    assert_eq!(extraction.container().unwrap().content, "container");
    let texts: Vec<&str> =
        extraction.embedded_documents().iter().map(|d| d.content.as_str()).collect();
    assert_eq!(texts, vec!["first", "second", "third"]);
    assert_eq!(extraction.documents[3].metadata.get("k"), Some(&vec!["v".to_string()]));
}

#[test]
fn recursive_result_with_container_only() {
    let reply: Reply = RawReply::Documents { documents: Some(vec![raw("")]) };
    let extraction = recursive_result(reply).unwrap();
    assert_eq!(extraction.total_count(), 1);
    assert_eq!(extraction.embedded_documents().len(), 0);
    assert_eq!(extraction.container().unwrap().content, "");
}

#[test]
fn recursive_result_of_an_empty_list_is_malformed() {
    let reply: Reply = RawReply::Documents { documents: Some(vec![]) };
    malformed(recursive_result(reply), "the recursive result holds no document");
}

#[test]
fn recursive_result_of_incomplete_replies() {
    let reply: Reply = RawReply::Documents { documents: None };
    malformed(recursive_result(reply), "the recursive result has no list of documents");
    malformed(recursive_result(text_reply()), "the reply is not a recursive result");
    malformed(recursive_result(Reply::Unrecognized), "the reply is not a recursive result");
    let lacking = "a document of the recursive result lacks its content or its metadata";
    let reply: Reply = RawReply::Documents {
        documents: Some(vec![raw("a"), RawDocument { content: None, metadata: Some(entries()) }]),
    };
    malformed(recursive_result(reply), lacking);
    let reply: Reply = RawReply::Documents {
        documents: Some(vec![
            RawDocument { content: Some("a".to_string()), metadata: None },
            raw("b"),
        ]),
    };
    malformed(recursive_result(reply), lacking);
    let reply: Reply = RawReply::Documents {
        documents: Some(vec![raw("a"), RawDocument { content: None, metadata: None }, raw("c")]),
    };
    malformed(recursive_result(reply), lacking);
}

fn started<'a>(extractor: &'a Extractor) -> Call<'a, u32> {
    let (call, action) = Call::new(extractor.extract_file_to_string("a")).begin();
    assert_eq!(action, CallAction::Attach);
    call
}

fn dispatched<'a>(extractor: &'a Extractor) -> Call<'a, u32> {
    let (call, action) = started(extractor).step(CallEvent::Attached);
    assert_eq!(action, CallAction::Invoke);
    call
}

fn returned<'a>(extractor: &'a Extractor) -> Call<'a, u32> {
    let (call, action) = dispatched(extractor).step(CallEvent::Returned);
    assert_eq!(action, CallAction::Read(ResultShape::Text));
    call
}

fn failure<'a>(call: Call<'a, u32>) -> Error {
    assert!(call.is_finished());
    assert_eq!(call.next_action(), CallAction::Finished);
    call.finish().unwrap().unwrap_err()
}

#[test]
fn new_call_is_configured() {
    let extractor = Extractor::new();
    let call: Call<u32> = Call::new(extractor.extract_file("a"));
    assert!(matches!(call.state, CallState::Configured));
    assert_eq!(call.next_action(), CallAction::Begin);
    assert!(!call.is_finished());
    assert!(call.finish().is_none());
}

#[test]
fn successful_call_passes_every_state_in_order() {
    let extractor = Extractor::new();
    let call: Call<u32> = Call::new(extractor.extract_file_to_string("a"));
    let (call, action) = call.begin();
    assert!(matches!(call.state, CallState::Attaching));
    assert_eq!(action, CallAction::Attach);
    let (call, action) = call.step(CallEvent::Attached);
    assert!(matches!(call.state, CallState::Dispatching));
    assert_eq!(action, CallAction::Invoke);
    assert!(call.finish().is_none());
    let call = dispatched(&extractor);
    let (call, action) = call.step(CallEvent::Returned);
    assert!(matches!(call.state, CallState::Unmarshaling));
    assert_eq!(action, CallAction::Read(ResultShape::Text));
    let (call, action) = call.step(CallEvent::Read(text_reply()));
    assert!(matches!(call.state, CallState::Succeeded(_)));
    assert_eq!(action, CallAction::Finished);
    assert!(call.is_finished());
    assert_eq!(call.request, extractor.extract_file_to_string("a"));
    match call.finish() {
        Some(Ok(Extraction::Text(content, metadata))) => {
            assert_eq!(content, "text");
            assert_eq!(metadata.len(), 1);
        }
        other => panic!("not a string result: {:?}", other),
    }
}

#[test]
fn request_that_does_not_fit_its_signature_fails_at_once() {
    let request = ExtractionRequest {
        operation: Operation::ParseFileToString,
        arguments: vec![Argument::Text("a"), Argument::Bool(true)],
    };
    let (call, action) = Call::<u32>::new(request).begin();
    assert_eq!(action, CallAction::Finished);
    let error = failure(call);
    assert_eq!(
        error,
        Error::Marshal("the arguments do not fit the signature of the operation".to_string())
    );
    assert_eq!(error.kind(), ErrorKind::Marshal);
}

#[test]
fn begin_leaves_a_started_call_as_it_is() {
    let extractor = Extractor::new();
    let (call, action) = dispatched(&extractor).begin();
    assert!(matches!(call.state, CallState::Dispatching));
    assert_eq!(action, CallAction::Invoke);
}

#[test]
fn runtime_that_does_not_start_fails_the_call() {
    let extractor = Extractor::new();
    let (call, action) =
        started(&extractor).step(CallEvent::StartupFailed("no runtime".to_string()));
    assert_eq!(action, CallAction::Finished);
    let error = failure(call);
    assert_eq!(error, Error::RuntimeStartup("no runtime".to_string()));
    assert_eq!(error.kind(), ErrorKind::RuntimeStartup);
    assert_eq!(error.message(), "no runtime");
}

#[test]
fn thread_that_cannot_attach_fails_the_call() {
    let extractor = Extractor::new();
    let (call, _) = started(&extractor).step(CallEvent::AttachFailed("no thread".to_string()));
    let error = failure(call);
    assert_eq!(error, Error::Attach("no thread".to_string()));
    assert_eq!(error.kind(), ErrorKind::Attach);
}

#[test]
fn argument_that_cannot_be_built_fails_the_call() {
    let extractor = Extractor::new();
    let (call, _) = dispatched(&extractor).step(CallEvent::MarshalFailed("bad value".to_string()));
    let error = failure(call);
    assert_eq!(error, Error::Marshal("bad value".to_string()));
    assert_eq!(error.kind(), ErrorKind::Marshal);
}

#[test]
fn exception_of_the_engine_fails_the_call() {
    let extractor = Extractor::new();
    let (call, _) = dispatched(&extractor).step(CallEvent::Raised {
        exception: Some("org.apache.tika.exception.TikaException".to_string()),
        message: "cannot parse".to_string(),
    });
    let error = failure(call);
    assert_eq!(
        error,
        Error::Remote {
            exception: Some("org.apache.tika.exception.TikaException".to_string()),
            message: "cannot parse".to_string(),
        }
    );
    assert_eq!(error.kind(), ErrorKind::Remote);
    assert_eq!(error.message(), "cannot parse");
    let (call, _) = dispatched(&extractor)
        .step(CallEvent::Raised { exception: None, message: "unknown".to_string() });
    assert_eq!(
        failure(call),
        Error::Remote { exception: None, message: "unknown".to_string() }
    );
}

#[test]
fn result_that_cannot_be_read_is_malformed() {
    let extractor = Extractor::new();
    let (call, _) = returned(&extractor).step(CallEvent::Unreadable("null object".to_string()));
    let error = failure(call);
    assert_eq!(error, Error::Malformed("null object".to_string()));
    assert_eq!(error.kind(), ErrorKind::Malformed);
}

#[test]
fn reply_of_another_shape_is_malformed() {
    let extractor = Extractor::new();
    let (call, _) = returned(&extractor)
        .step(CallEvent::Read(RawReply::Documents { documents: Some(vec![raw("a")]) }));
    assert_eq!(failure(call), Error::Malformed("the reply is not a string result".to_string()));

    let (call, _) = Call::<u32>::new(extractor.extract_file_recursive("a")).begin();
    let (call, _) = call.step(CallEvent::Attached);
    let (call, action) = call.step(CallEvent::Returned);
    assert_eq!(action, CallAction::Read(ResultShape::Documents));
    let (call, _) = call.step(CallEvent::Read(RawReply::Documents { documents: Some(vec![]) }));
    assert_eq!(
        failure(call),
        Error::Malformed("the recursive result holds no document".to_string())
    );

    let (call, _) = Call::<u32>::new(extractor.extract_file("a")).begin();
    let (call, _) = call.step(CallEvent::Attached);
    let (call, action) = call.step(CallEvent::Returned);
    assert_eq!(action, CallAction::Read(ResultShape::Reader));
    let (call, _) = call.step(CallEvent::Read(text_reply()));
    assert_eq!(failure(call), Error::Malformed("the reply is not a streamed result".to_string()));
}

#[test]
fn each_shape_ends_with_its_own_kind_of_result() {
    let extractor = Extractor::new();
    let (call, _) = Call::<u32>::new(extractor.extract_url("u")).begin();
    let (call, _) = call.step(CallEvent::Attached);
    let (call, _) = call.step(CallEvent::Returned);
    let (call, _) = call
        .step(CallEvent::Read(RawReply::Reader { reader: Some(5), metadata: Some(entries()) }));
    match call.finish() {
        Some(Ok(Extraction::Stream(reader, metadata))) => {
            assert_eq!(reader.into_handle(), 5);
            assert_eq!(metadata.len(), 1);
        }
        other => panic!("not a streamed result: {:?}", other),
    }

    let buffer = [1u8, 2];
    let (call, _) = Call::<u32>::new(extractor.extract_bytes_recursive(&buffer)).begin();
    let (call, _) = call.step(CallEvent::Attached);
    let (call, _) = call.step(CallEvent::Returned);
    let (call, _) = call.step(CallEvent::Read(RawReply::Documents {
        documents: Some(vec![raw("container"), raw("inner")]),
    }));
    match call.finish() {
        Some(Ok(Extraction::Documents(extraction))) => {
            assert_eq!(extraction.total_count(), 2);
            assert_eq!(extraction.embedded_documents()[0].content, "inner");
        }
        other => panic!("not a recursive result: {:?}", other),
    }

    let (call, _) = Call::<u32>::new(extractous::get_jvm_memory_usage()).begin();
    let (call, _) = call.step(CallEvent::Attached);
    let (call, action) = call.step(CallEvent::Returned);
    assert_eq!(action, CallAction::Read(ResultShape::Text));
    let (call, _) = call.step(CallEvent::Read(text_reply()));
    match call.finish() {
        Some(Ok(Extraction::Status(status))) => assert_eq!(status, "text"),
        other => panic!("not a status: {:?}", other),
    }
}

#[test]
fn event_that_was_not_asked_for_fails_the_call() {
    let unexpected = Error::Malformed("the call was handed an event it did not ask for".to_string());
    let extractor = Extractor::new();
    let call: Call<u32> = Call::new(extractor.extract_file("a"));
    let (call, _) = call.step(CallEvent::Attached);
    assert_eq!(failure(call), unexpected);
    let (call, _) = started(&extractor).step(CallEvent::Returned);
    assert_eq!(failure(call), unexpected);
    let (call, _) = started(&extractor).step(CallEvent::Read(text_reply()));
    assert_eq!(failure(call), unexpected);
    let (call, _) = dispatched(&extractor).step(CallEvent::Attached);
    assert_eq!(failure(call), unexpected);
    let (call, _) = dispatched(&extractor).step(CallEvent::AttachFailed("late".to_string()));
    assert_eq!(failure(call), unexpected);
    let (call, _) = returned(&extractor).step(CallEvent::Returned);
    assert_eq!(failure(call), unexpected);
    let (call, _) = returned(&extractor)
        .step(CallEvent::Raised { exception: None, message: "late".to_string() });
    assert_eq!(failure(call), unexpected);
}

#[test]
fn finished_call_stays_as_it_ended() {
    let extractor = Extractor::new();
    let (call, _) = started(&extractor).step(CallEvent::AttachFailed("no thread".to_string()));
    let (call, action) = call.step(CallEvent::Attached);
    assert_eq!(action, CallAction::Finished);
    let (call, _) = call.step(CallEvent::Read(text_reply()));
    let (call, _) = call.begin();
    assert_eq!(failure(call), Error::Attach("no thread".to_string()));

    let (call, _) = returned(&extractor).step(CallEvent::Read(text_reply()));
    let (call, action) =
        call.step(CallEvent::Raised { exception: None, message: "late".to_string() });
    assert_eq!(action, CallAction::Finished);
    assert!(matches!(call.finish(), Some(Ok(Extraction::Text(_, _)))));
}

#[test]
fn session_starts_the_runtime_once() {
    let session = Session::new();
    assert_eq!(session, Session::NotStarted);
    assert_eq!(session.on_attach(), SessionAction::Start);
    assert_eq!(session.failure(), None);
    let session = session.started(Ok(()));
    assert_eq!(session, Session::Running);
    assert_eq!(session.on_attach(), SessionAction::Reuse);
    let session = session.started(Err("late report".to_string()));
    assert_eq!(session, Session::Running);
    let session = session.started(Ok(()));
    assert_eq!(session.on_attach(), SessionAction::Reuse);
}

#[test]
fn failed_start_is_final() {
    let session = Session::new().started(Err("no runtime".to_string()));
    assert_eq!(session, Session::Broken("no runtime".to_string()));
    assert_eq!(session.on_attach(), SessionAction::Refuse);
    assert_eq!(session.failure(), Some(&"no runtime".to_string()));
    let session = session.started(Ok(()));
    assert_eq!(session, Session::Broken("no runtime".to_string()));
    assert_eq!(session.on_attach(), SessionAction::Refuse);
    let session = session.started(Err("again".to_string()));
    assert_eq!(session.failure(), Some(&"no runtime".to_string()));
}

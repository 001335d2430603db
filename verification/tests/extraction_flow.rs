//! Whole calls, from the extractor to the result, against a small engine
//! that stands in for the embedded runtime.

use extractous::{
    Argument, Call, CallAction, CallEvent, Error, ErrorKind, ExtractResult, ExtractionRequest,
    Extraction, Extractor, Metadata, Operation, RawDocument, RawReply, ReadEvent, ReadStep,
    RecursiveExtraction, ResultShape, StreamReader, DEFAULT_BUF_SIZE,
};
use std::cell::RefCell;

const TEST_FILE: &str = "README.md";
const TEST_FILE_CONTENT: &str = "hello\nworld\n";
const TEST_URL: &str = "https://www.google.com/";

/// The remote reader of the stand-in engine: bytes and a cursor.
#[derive(Debug)]
struct RemoteReader {
    bytes: Vec<u8>,
    position: RefCell<usize>,
    transfer: RefCell<Vec<u8>>,
}

/// A document that the stand-in engine knows.
struct Stored {
    content: String,
    embedded: Vec<String>,
}

fn stored(content: &str, embedded: &[&str]) -> Stored {
    Stored {
        content: content.to_string(),
        embedded: embedded.iter().map(|text| text.to_string()).collect(),
    }
}

fn long_text() -> String {
    let mut text = String::new();
    for line in 0..2000 {
        text.push_str(&format!("line {} of the quarterly report\n", line));
    }
    text
}

/// Looks a source up in the stand-in engine's store.
fn lookup(source: &str) -> Option<Stored> {
    match source {
        "README.md" => Some(stored(TEST_FILE_CONTENT, &[])),
        "https://www.google.com/" => Some(stored("Google Search\n", &[])),
        "../test_files/documents/category-level.docx" => {
            Some(stored("Category level document\n", &[]))
        }
        "../test_files/documents/simple.odt" => Some(stored("A simple document\n", &[])),
        "../test_files/documents/2022_Q3_AAPL.pdf" => Some(stored(&long_text(), &[])),
        "archive.zip" => Some(stored("", &["first attachment", "second attachment"])),
        _ => None,
    }
}

fn metadata_for(source: &str, length: usize) -> Vec<(String, Vec<String>)> {
    vec![
        ("resourceName".to_string(), vec![source.to_string()]),
        ("Content-Length".to_string(), vec![length.to_string()]),
        (
            "dc:creator".to_string(),
            vec!["first author".to_string(), "second author".to_string()],
        ),
    ]
}

fn cut(text: &str, max_length: i32) -> String {
    if max_length < 0 {
        text.to_string()
    } else {
        text.chars().take(max_length as usize).collect()
    }
}

fn render(text: &str, as_xml: bool) -> String {
    if as_xml {
        format!("<html><body><p>{}</p></body></html>", text)
    } else {
        text.to_string()
    }
}

enum Answer {
    Raised(Option<String>, String),
    Reply(RawReply<RemoteReader>),
}

/// The stand-in engine: answers a request the way the parsing engine does.
fn engine(request: &ExtractionRequest) -> Answer {
    assert!(request.is_well_typed());
    if request.operation == Operation::GetMemoryUsage {
        return Answer::Reply(RawReply::Text {
            content: Some("{\"used\": 1024}".to_string()),
            metadata: Some(Vec::new()),
        });
    }
    if request.operation == Operation::TriggerGarbageCollection {
        return Answer::Reply(RawReply::Text {
            content: Some("{\"collected\": true}".to_string()),
            metadata: Some(Vec::new()),
        });
    }
    let (name, found) = match request.arguments[0] {
        Argument::Text(source) => (source.to_string(), lookup(source)),
        Argument::Bytes(bytes) => (
            "bytes".to_string(),
            Some(stored(&String::from_utf8(bytes.to_vec()).unwrap(), &[])),
        ),
        _ => panic!("the first argument is no source"),
    };
    let found = match found {
        Some(found) => found,
        None => {
            return Answer::Raised(
                Some("java.io.FileNotFoundException".to_string()),
                format!("{} (No such file or directory)", name),
            )
        }
    };
    let as_xml = match request.arguments[5] {
        Argument::Bool(flag) => flag,
        _ => panic!("the sixth argument is no flag"),
    };
    match request.operation.shape() {
        ResultShape::Reader => {
            match request.arguments[1] {
                Argument::Text(charset) => assert!(
                    charset == "UTF_8" || charset == "US_ASCII" || charset == "UTF_16BE"
                ),
                _ => panic!("the second argument is no charset name"),
            }
            let content = render(&found.content, as_xml);
            Answer::Reply(RawReply::Reader {
                reader: Some(RemoteReader {
                    bytes: content.clone().into_bytes(),
                    position: RefCell::new(0),
                    transfer: RefCell::new(Vec::new()),
                }),
                metadata: Some(metadata_for(&name, content.len())),
            })
        }
        ResultShape::Text => {
            let max_length = match request.arguments[1] {
                Argument::Int(length) => length,
                _ => panic!("the second argument is no length"),
            };
            let content = cut(&render(&found.content, as_xml), max_length);
            Answer::Reply(RawReply::Text {
                metadata: Some(metadata_for(&name, content.len())),
                content: Some(content),
            })
        }
        ResultShape::Documents => {
            let max_length = match request.arguments[1] {
                Argument::Int(length) => length,
                _ => panic!("the second argument is no length"),
            };
            let mut documents = Vec::new();
            let content = cut(&render(&found.content, as_xml), max_length);
            documents.push(RawDocument {
                metadata: Some(metadata_for(&name, content.len())),
                content: Some(content),
            });
            for text in found.embedded.iter() {
                let content = cut(&render(text, as_xml), max_length);
                documents.push(RawDocument {
                    metadata: Some(metadata_for("embedded", content.len())),
                    content: Some(content),
                });
            }
            Answer::Reply(RawReply::Documents { documents: Some(documents) })
        }
    }
}

/// Carries a call out against the stand-in engine.
fn run(request: ExtractionRequest) -> ExtractResult<Extraction<RemoteReader>> {
    let (mut call, mut action) = Call::new(request).begin();
    let mut reply = None;
    let mut steps = 0;
    loop {
        let event = match action {
            CallAction::Begin => panic!("a call that has begun does not begin again"),
            CallAction::Attach => CallEvent::Attached,
            CallAction::Invoke => match engine(&call.request) {
                Answer::Raised(exception, message) => CallEvent::Raised { exception, message },
                Answer::Reply(answer) => {
                    reply = Some(answer);
                    CallEvent::Returned
                }
            },
            CallAction::Read(shape) => {
                assert_eq!(shape, call.request.operation.shape());
                CallEvent::Read(reply.take().unwrap())
            }
            CallAction::Finished => return call.finish().unwrap(),
        };
        steps += 1;
        assert!(steps <= 4, "a call is over after four events at most");
        let next = call.step(event);
        call = next.0;
        action = next.1;
    }
}

fn run_to_string(request: ExtractionRequest) -> ExtractResult<(String, Metadata)> {
    match run(request)? {
        Extraction::Text(content, metadata) => Ok((content, metadata)),
        other => panic!("not a string result: {:?}", other),
    }
}

fn run_to_stream(
    request: ExtractionRequest,
) -> ExtractResult<(StreamReader<RemoteReader>, Metadata)> {
    match run(request)? {
        Extraction::Stream(reader, metadata) => Ok((reader, metadata)),
        other => panic!("not a streamed result: {:?}", other),
    }
}

fn run_recursive(request: ExtractionRequest) -> ExtractResult<RecursiveExtraction> {
    match run(request)? {
        Extraction::Documents(extraction) => Ok(extraction),
        other => panic!("not a recursive result: {:?}", other),
    }
}

fn run_status(request: ExtractionRequest) -> ExtractResult<String> {
    match run(request)? {
        Extraction::Status(status) => Ok(status),
        other => panic!("not a status: {:?}", other),
    }
}

/// One read, carried out against the stand-in engine's reader.
fn read(reader: &mut StreamReader<RemoteReader>, buf: &mut [u8]) -> Result<usize, Error> {
    let request = reader.begin_read(buf.len());
    let mut event = {
        let remote = reader.handle();
        if let Some(size) = request.allocate {
            *remote.transfer.borrow_mut() = vec![0; size as usize];
        }
        assert!(remote.transfer.borrow().len() >= request.length as usize);
        let position = *remote.position.borrow();
        let left = remote.bytes.len() - position;
        if left == 0 {
            ReadEvent::Count(-1)
        } else {
            let count = left.min(request.length as usize);
            remote.transfer.borrow_mut()[..count]
                .copy_from_slice(&remote.bytes[position..position + count]);
            *remote.position.borrow_mut() = position + count;
            ReadEvent::Count(count as i32)
        }
    };
    loop {
        match reader.advance_read(buf, event) {
            ReadStep::Fetch { count } => {
                event = ReadEvent::Bytes(reader.handle().transfer.borrow()[..count].to_vec());
            }
            ReadStep::Done(result) => return result,
        }
    }
}

fn read_content_from_stream(mut stream: StreamReader<RemoteReader>) -> String {
    let mut buffer = Vec::new();
    let mut chunk = vec![0u8; DEFAULT_BUF_SIZE];
    loop {
        let filled = read(&mut stream, &mut chunk).unwrap();
        if filled == 0 {
            break;
        }
        buffer.extend_from_slice(&chunk[..filled]);
    }
    String::from_utf8(buffer).unwrap()
}

fn expected_content() -> String {
    TEST_FILE_CONTENT.to_string()
}

#[test]
fn extract_file_to_string_test() {
    let expected_content = expected_content();

    let extractor = Extractor::new();
    let result = run_to_string(extractor.extract_file_to_string(TEST_FILE));
    let (content, metadata) = result.unwrap();
    assert_eq!(content.trim(), expected_content.trim());
    assert!(
        metadata.len() > 0,
        "Metadata should contain at least one entry"
    );
}

#[test]
fn extract_file_test() {
    let expected_content = expected_content();

    let extractor = Extractor::new();
    let result = run_to_stream(extractor.extract_file(TEST_FILE));
    let (reader, metadata) = result.unwrap();
    let content = read_content_from_stream(reader);

    assert_eq!(content.trim(), expected_content.trim());
    assert!(
        metadata.len() > 0,
        "Metadata should contain at least one entry"
    );
}

#[test]
fn extract_bytes_test() {
    let expected_content = expected_content();

    let file_bytes = TEST_FILE_CONTENT.as_bytes().to_vec();
    let extractor = Extractor::new();
    let result = run_to_stream(extractor.extract_bytes(&file_bytes));
    let (reader, metadata) = result.unwrap();
    let content = read_content_from_stream(reader);

    assert_eq!(content.trim(), expected_content.trim());
    assert!(
        metadata.len() > 0,
        "Metadata should contain at least one entry"
    );
}

#[test]
fn extract_url_test() {
    let extractor = Extractor::new();
    let result = run_to_stream(extractor.extract_url(&TEST_URL));
    let (reader, metadata) = result.unwrap();
    let content = read_content_from_stream(reader);

    assert!(content.contains("Google"));
    assert!(
        metadata.len() > 0,
        "Metadata should contain at least one entry"
    );
}

#[test]
fn extract_file_to_xml_test() {
    let extractor = Extractor::new();
    let result =
        run_to_string(extractor.extract_file_to_string_opt(TEST_FILE, None, Some(true), None));
    let (content, metadata) = result.unwrap();
    assert!(content.len() > 0);
    assert!(metadata.len() > 0);
    assert!(content.starts_with("<html>"));
}

#[test]
fn test_extract_file_recursive_simple_text() {
    let extractor = Extractor::new();
    let result = run_recursive(
        extractor.extract_file_recursive("../test_files/documents/category-level.docx"),
    );

    if let Err(ref e) = result {
        match e {
            Error::Remote { message, .. } => println!("   remote failure: {}", message),
            Error::Malformed(msg) => println!("   malformed result: {}", msg),
            _ => println!("   other failure: {:?}", e),
        }
    }

    let result = result.unwrap();

    assert!(result.total_count() >= 1);

    let container = result.container().unwrap();
    assert!(container.content.len() > 0);
    assert!(container.metadata.len() > 0);
}

#[test]
fn test_extract_file_recursive_structure() {
    let extractor = Extractor::new();
    let result = run_recursive(
        extractor.extract_file_recursive("../test_files/documents/simple.odt"),
    )
    .unwrap();

    assert!(result.total_count() >= 1);

    let container = result.container();
    assert!(container.is_some());

    for (i, doc) in result.documents.iter().enumerate() {
        println!(
            "document {}: content length={}, metadata entries={}",
            i,
            doc.content.len(),
            doc.metadata.len()
        );
    }
}

#[test]
fn test_extract_bytes_recursive() {
    let file_content = long_text().into_bytes();

    let extractor = Extractor::new();
    let result = run_recursive(extractor.extract_bytes_recursive(&file_content)).unwrap();

    assert!(result.total_count() >= 1);
    assert!(result.container().is_some());
}

#[test]
fn test_recursive_with_config() {
    let extractor = Extractor::new().set_extract_string_max_length(5000);

    let result = run_recursive(
        extractor.extract_file_recursive("../test_files/documents/2022_Q3_AAPL.pdf"),
    )
    .unwrap();

    assert!(result.total_count() >= 1);

    for doc in result.documents.iter() {
        assert!(
            doc.content.len() <= 5000,
            "document content length {} exceeds the limit 5000",
            doc.content.len()
        );
    }
    assert_eq!(result.documents[0].content.len(), 5000);
}

#[test]
fn test_recursive_error_handling() {
    let extractor = Extractor::new();
    let result = run_recursive(extractor.extract_file_recursive("nonexistent_file.txt"));

    assert!(result.is_err());
}

#[test]
fn test_recursive_embedded_documents_accessor() {
    let extractor = Extractor::new();
    let result = run_recursive(
        extractor.extract_file_recursive("../test_files/documents/simple.odt"),
    )
    .unwrap();

    let container = result.container();
    assert!(container.is_some());

    let embedded = result.embedded_documents();
    assert_eq!(embedded.len(), result.total_count().saturating_sub(1));

    assert_eq!(result.total_count(), result.documents.len());
}

#[test]
fn plain_text_file_with_defaults() {
    let extractor = Extractor::new();
    let (content, metadata) = run_to_string(extractor.extract_file_to_string(TEST_FILE)).unwrap();
    assert_eq!(content.trim(), "hello\nworld\n".trim());
    assert!(metadata.len() > 0);
    assert_eq!(metadata.len(), 3);
    assert_eq!(
        metadata.get("dc:creator"),
        Some(&vec!["first author".to_string(), "second author".to_string()])
    );
}

#[test]
fn plain_document_has_no_embedded_documents() {
    let extractor = Extractor::new();
    let result = run_recursive(extractor.extract_file_recursive(TEST_FILE)).unwrap();
    assert_eq!(result.total_count(), 1);
    assert_eq!(result.embedded_documents().len(), 0);
    assert_eq!(result.container().unwrap().content, TEST_FILE_CONTENT);
}

#[test]
fn archive_lists_container_then_embedded_documents() {
    let extractor = Extractor::new();
    let result = run_recursive(extractor.extract_file_recursive("archive.zip")).unwrap();
    assert_eq!(result.total_count(), 3);
    assert_eq!(result.container().unwrap().content, "");
    let embedded = result.embedded_documents();
    assert_eq!(embedded.len(), 2);
    assert_eq!(embedded[0].content, "first attachment");
    assert_eq!(embedded[1].content, "second attachment");
}

#[test]
fn nonexistent_path_fails_with_remote_error() {
    let extractor = Extractor::new();
    let failure = run_to_string(extractor.extract_file_to_string("nonexistent_file.txt"))
        .unwrap_err();
    assert_eq!(failure.kind(), ErrorKind::Remote);
    assert_eq!(
        failure,
        Error::Remote {
            exception: Some("java.io.FileNotFoundException".to_string()),
            message: "nonexistent_file.txt (No such file or directory)".to_string(),
        }
    );
    let failure = run_to_stream(extractor.extract_file("nonexistent_file.txt")).unwrap_err();
    assert_eq!(failure.kind(), ErrorKind::Remote);
}

#[test]
fn overrides_do_not_affect_each_other() {
    let extractor = Extractor::new();
    let (short, _) =
        run_to_string(extractor.extract_file_to_string_opt(TEST_FILE, Some(3), None, None))
            .unwrap();
    let (longer, _) =
        run_to_string(extractor.extract_file_to_string_opt(TEST_FILE, Some(8), None, None))
            .unwrap();
    let (whole, _) = run_to_string(extractor.extract_file_to_string(TEST_FILE)).unwrap();
    assert_eq!(short, "hel");
    assert_eq!(longer, "hello\nwo");
    assert_eq!(whole, TEST_FILE_CONTENT);
    assert_eq!(extractor.extract_string_max_length(), -1);
}

#[test]
fn string_results_keep_within_the_maximum_length() {
    let extractor = Extractor::new().set_extract_string_max_length(7);
    let (content, _) = run_to_string(extractor.extract_file_to_string(TEST_FILE)).unwrap();
    assert!(content.chars().count() <= 7);
    assert_eq!(content, "hello\nw");
    let (content, _) =
        run_to_string(extractor.extract_url_to_string_opt(TEST_URL, Some(0), None, None)).unwrap();
    assert_eq!(content, "");
}

#[test]
fn stream_and_string_extraction_agree() {
    let extractor = Extractor::new();
    let (reader, stream_metadata) = run_to_stream(extractor.extract_file(TEST_FILE)).unwrap();
    let streamed = read_content_from_stream(reader);
    let (content, string_metadata) =
        run_to_string(extractor.extract_file_to_string(TEST_FILE)).unwrap();
    assert_eq!(streamed.as_bytes(), content.as_bytes());
    assert_eq!(stream_metadata.len(), string_metadata.len());
}

#[test]
fn same_call_twice_gives_same_result() {
    let extractor = Extractor::new();
    let first = run_to_string(extractor.extract_file_to_string(TEST_FILE)).unwrap();
    let second = run_to_string(extractor.extract_file_to_string(TEST_FILE)).unwrap();
    assert_eq!(first.0, second.0);
    let mut first_keys: Vec<String> =
        first.1.entries().iter().map(|entry| entry.0.clone()).collect();
    let mut second_keys: Vec<String> =
        second.1.entries().iter().map(|entry| entry.0.clone()).collect();
    first_keys.sort();
    second_keys.sort();
    assert_eq!(first_keys, second_keys);
}

#[test]
fn single_byte_reads_reach_the_end_after_the_content() {
    let extractor = Extractor::new();
    let (content, _) = run_to_string(extractor.extract_file_to_string(TEST_FILE)).unwrap();
    let (mut reader, _) = run_to_stream(extractor.extract_file(TEST_FILE)).unwrap();
    let mut byte = [0u8; 1];
    let mut collected = Vec::new();
    let mut successful = 0;
    loop {
        let filled = read(&mut reader, &mut byte).unwrap();
        if filled == 0 {
            break;
        }
        assert_eq!(filled, 1);
        collected.push(byte[0]);
        successful += 1;
    }
    assert_eq!(successful, content.len());
    assert_eq!(collected, content.as_bytes());
    assert_eq!(read(&mut reader, &mut byte).unwrap(), 0);
    assert_eq!(read(&mut reader, &mut byte).unwrap(), 0);
}

#[test]
fn diagnostics_relay_a_status_string() {
    let usage = run_status(extractous::get_jvm_memory_usage()).unwrap();
    assert_eq!(usage, "{\"used\": 1024}");
    let collected = run_status(extractous::trigger_jvm_gc()).unwrap();
    assert_eq!(collected, "{\"collected\": true}");
}

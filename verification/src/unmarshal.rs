//! Checking what a remote call handed back and turning it into owned values.
//!
//! A reply has one of three shapes. Each is checked for completeness before
//! it counts as a success: a reply of another shape, or one that lacks a
//! required part, is a malformed result and never a partial success. The
//! text of a document is handed on as it came: where a maximum length was
//! asked for, the engine has cut the text, and it is not cut again here.

use vstd::prelude::*;
use vstd::string::StringExecFns;
use crate::document::{Document, DocumentView, RecursiveExtraction};
use crate::errors::{Error, ExtractResult};
use crate::metadata::{entries_to_map, entry_views, Entry, Metadata};
use crate::stream::{ReadPhase, StreamReader};

verus! {

/// One document of a recursive reply, as it was read across the boundary: a
/// part that the remote object did not hold is `None`.
#[derive(Debug, Clone, PartialEq, Eq)]
pub struct RawDocument {
    pub content: Option<String>,
    pub metadata: Option<Vec<Entry>>,
}

/// The result of a remote call, as it was read across the boundary: a part
/// that the remote object did not hold is `None`. `H` is the handle of a
/// remote reader.
#[derive(Debug)]
pub enum RawReply<H> {
    /// A string result.
    Text { content: Option<String>, metadata: Option<Vec<Entry>> },
    /// A streamed result.
    Reader { reader: Option<H>, metadata: Option<Vec<Entry>> },
    /// A recursive result.
    Documents { documents: Option<Vec<RawDocument>> },
    /// Nothing, or an object of no known shape.
    Unrecognized,
}

impl RawDocument {
    /// The document holds its text and its metadata.
    pub open spec fn is_complete(self) -> bool {
        self.content is Some && self.metadata is Some
    }

    /// The value of the document that a complete raw document stands for.
    pub open spec fn document_view(self) -> DocumentView {
        DocumentView {
            content: self.content->0@,
            metadata: entries_to_map(entry_views(self.metadata->0@)),
        }
    }
}

/// What is wrong with a reply that should be a string result, as the
/// message of the failure; `None` where the reply is complete.
pub open spec fn text_problem<H>(reply: RawReply<H>) -> Option<Seq<char>> {
    match reply {
        RawReply::Text { content, metadata } => {
            if content is None {
                Some("the string result has no content"@)
            } else if metadata is None {
                Some("the string result has no metadata"@)
            } else {
                None
            }
        },
        _ => Some("the reply is not a string result"@),
    }
}

/// What is wrong with a reply that should be a streamed result, as the
/// message of the failure; `None` where the reply is complete.
pub open spec fn reader_problem<H>(reply: RawReply<H>) -> Option<Seq<char>> {
    match reply {
        RawReply::Reader { reader, metadata } => {
            if reader is None {
                Some("the streamed result has no reader"@)
            } else if metadata is None {
                Some("the streamed result has no metadata"@)
            } else {
                None
            }
        },
        _ => Some("the reply is not a streamed result"@),
    }
}

/// What is wrong with a reply that should be a recursive result, as the
/// message of the failure; `None` where the reply is complete. A list
/// without any document is not a result: the container is always there.
pub open spec fn documents_problem<H>(reply: RawReply<H>) -> Option<Seq<char>> {
    match reply {
        RawReply::Documents { documents } => {
            if documents is None {
                Some("the recursive result has no list of documents"@)
            } else if documents->0@.len() == 0 {
                Some("the recursive result holds no document"@)
            } else if exists|i: int|
                0 <= i < documents->0@.len() && !(#[trigger] documents->0@[i]).is_complete() {
                Some("a document of the recursive result lacks its content or its metadata"@)
            } else {
                None
            }
        },
        _ => Some("the reply is not a recursive result"@),
    }
}

/// The result is the malformed-result failure with the given message.
pub open spec fn is_malformed<T>(result: ExtractResult<T>, message: Seq<char>) -> bool {
    result matches Err(Error::Malformed(text)) && text@ == message
}

/// The result is what the reply yields as a string result: its text,
/// unchanged, and its metadata where the reply is complete, and the
/// malformed-result failure that names what is wrong otherwise.
pub open spec fn is_string_result<H>(
    reply: RawReply<H>,
    result: ExtractResult<(String, Metadata)>,
) -> bool {
    match text_problem(reply) {
        None => result matches Ok(pair) && pair.0 == reply->Text_content->0 && pair.1@
            == entries_to_map(entry_views(reply->Text_metadata->0@)),
        Some(message) => is_malformed(result, message),
    }
}

/// The result is what the reply yields as a status: its text, unchanged,
/// where the reply is a complete string result, and the malformed-result
/// failure that names what is wrong otherwise.
pub open spec fn is_status_result<H>(reply: RawReply<H>, result: ExtractResult<String>) -> bool {
    match text_problem(reply) {
        None => result == Ok::<String, Error>(reply->Text_content->0),
        Some(message) => is_malformed(result, message),
    }
}

/// The result is what the reply yields as a streamed result: a new reader
/// that owns the reply's handle, and the metadata, where the reply is
/// complete, and the malformed-result failure that names what is wrong
/// otherwise.
pub open spec fn is_reader_result<H>(
    reply: RawReply<H>,
    result: ExtractResult<(StreamReader<H>, Metadata)>,
) -> bool {
    match reader_problem(reply) {
        None => result matches Ok(pair) && pair.0.spec_handle() == reply->Reader_reader->0
            && pair.0.spec_capacity() == 0 && pair.0.spec_phase() == ReadPhase::Idle && pair.1@
            == entries_to_map(entry_views(reply->Reader_metadata->0@)),
        Some(message) => is_malformed(result, message),
    }
}

/// The result is what the reply yields as a recursive result: one document
/// for each document of the reply, in the same order and with the same text
/// and metadata, where the reply is complete, and the malformed-result
/// failure that names what is wrong otherwise.
pub open spec fn is_recursive_result<H>(
    reply: RawReply<H>,
    result: ExtractResult<RecursiveExtraction>,
) -> bool {
    match documents_problem(reply) {
        None => {
            &&& result matches Ok(extraction)
            &&& extraction.has_container()
            &&& extraction.documents@.len() == reply->Documents_documents->0@.len()
            &&& forall|i: int|
                0 <= i < extraction.documents@.len() ==> (#[trigger] extraction.documents@[i])@
                    == reply->Documents_documents->0@[i].document_view()
        },
        Some(message) => is_malformed(result, message),
    }
}

/// Makes the failure for a malformed result.
fn malformed<T>(message: &'static str) -> (result: ExtractResult<T>)
    ensures
        is_malformed(result, message@),
{
    Err(Error::Malformed(String::from_str(message)))
}

/// Turns a reply into a string result: the text and the metadata.
///
/// Succeeds exactly where the reply is a string result that holds both its
/// content and its metadata; the text is handed on unchanged. Any other
/// reply is a malformed result.
pub fn string_result<H>(reply: RawReply<H>) -> (result: ExtractResult<(String, Metadata)>)
    ensures
        is_string_result(reply, result),
{
    match reply {
        RawReply::Text { content, metadata } => {
            match content {
                None => malformed("the string result has no content"),
                Some(content) => match metadata {
                    None => malformed("the string result has no metadata"),
                    Some(entries) => Ok((content, Metadata::from_entries(entries))),
                },
            }
        },
        _ => malformed("the reply is not a string result"),
    }
}

/// Turns the reply to a diagnostic into its status string.
///
/// Succeeds exactly where [`string_result`] does, and hands on the text.
pub fn status_result<H>(reply: RawReply<H>) -> (result: ExtractResult<String>)
    ensures
        is_status_result(reply, result),
{
    match string_result(reply) {
        Ok(pair) => Ok(pair.0),
        Err(error) => Err(error),
    }
}

/// Turns a reply into a streamed result: a reader over the remote stream and
/// the metadata, which is there before any content is read.
///
/// Succeeds exactly where the reply is a streamed result that holds both its
/// reader and its metadata. The reader is new: it owns the handle, has no
/// transfer buffer yet and no read under way. Any other reply is a malformed
/// result.
pub fn reader_result<H>(reply: RawReply<H>) -> (result: ExtractResult<(StreamReader<H>, Metadata)>)
    ensures
        is_reader_result(reply, result),
{
    match reply {
        RawReply::Reader { reader, metadata } => {
            match reader {
                None => malformed("the streamed result has no reader"),
                Some(handle) => match metadata {
                    None => malformed("the streamed result has no metadata"),
                    Some(entries) => Ok((StreamReader::new(handle), Metadata::from_entries(entries))),
                },
            }
        },
        _ => malformed("the reply is not a streamed result"),
    }
}

/// Turns a reply into a recursive result: the container document first, then
/// the embedded documents in the order in which the engine found them.
///
/// Succeeds exactly where the reply is a recursive result with at least one
/// document, each with its content and its metadata; every text is handed on
/// unchanged. Any other reply, an empty list among them, is a malformed
/// result.
pub fn recursive_result<H>(reply: RawReply<H>) -> (result: ExtractResult<RecursiveExtraction>)
    ensures
        is_recursive_result(reply, result),
{
    match reply {
        RawReply::Documents { documents } => {
            match documents {
                None => malformed("the recursive result has no list of documents"),
                Some(list) => {
                    if list.len() == 0 {
                        return malformed("the recursive result holds no document");
                    }
                    let ghost all = list@;
                    let mut pending = list;
                    let mut reversed: Vec<Document> = Vec::new();
                    while pending.len() > 0
                        invariant
                            reply matches RawReply::Documents { documents: Some(whole) } && whole@
                                == all,
                            all.len() > 0,
                            pending@.len() <= all.len(),
                            pending@ == all.take(pending@.len() as int),
                            reversed@.len() == all.len() - pending@.len(),
                            forall|i: int|
                                pending@.len() <= i < all.len() ==> (#[trigger] all[i]).is_complete(),
                            forall|j: int|
                                0 <= j < reversed@.len() ==> (#[trigger] reversed@[j])@ == all[all.len()
                                    - 1 - j].document_view(),
                        decreases pending@.len(),
                    {
                        let raw = pending.pop().unwrap();
                        let document = match raw.content {
                            None => {
                                return malformed(
                                    "a document of the recursive result lacks its content or its metadata",
                                );
                            },
                            Some(content) => match raw.metadata {
                                None => {
                                    return malformed(
                                        "a document of the recursive result lacks its content or its metadata",
                                    );
                                },
                                Some(entries) => Document::new(content, Metadata::from_entries(entries)),
                            },
                        };
                        reversed.push(document);
                    }
                    let ghost backwards = reversed@;
                    let mut found: Vec<Document> = Vec::new();
                    while reversed.len() > 0
                        invariant
                            backwards.len() == all.len(),
                            reversed@.len() <= backwards.len(),
                            reversed@ == backwards.take(reversed@.len() as int),
                            found@.len() == backwards.len() - reversed@.len(),
                            forall|j: int|
                                0 <= j < backwards.len() ==> (#[trigger] backwards[j])@ == all[all.len()
                                    - 1 - j].document_view(),
                            forall|i: int|
                                0 <= i < found@.len() ==> (#[trigger] found@[i])@
                                    == all[i].document_view(),
                        decreases reversed@.len(),
                    {
                        let document = reversed.pop().unwrap();
                        found.push(document);
                    }
                    Ok(RecursiveExtraction::new(found))
                },
            }
        },
        _ => malformed("the reply is not a recursive result"),
    }
}

/// A string result hands the text on as the engine delivered it: a text
/// that keeps within a limit in the reply keeps within it in the result.
/// The limit itself is applied by the engine.
pub proof fn text_keeps_its_length<H>(
    reply: RawReply<H>,
    result: ExtractResult<(String, Metadata)>,
    limit: nat,
)
    requires
        is_string_result(reply, result),
        result is Ok,
        reply->Text_content->0@.len() <= limit,
    ensures
        result->Ok_0.0@.len() <= limit,
        result->Ok_0.0@ == reply->Text_content->0@,
{
}

/// A recursive result hands every text on as the engine delivered it: where
/// every document of the reply keeps within a limit, so does every document
/// of the result. The limit itself is applied by the engine.
pub proof fn texts_keep_their_length<H>(
    reply: RawReply<H>,
    result: ExtractResult<RecursiveExtraction>,
    limit: nat,
)
    requires
        is_recursive_result(reply, result),
        result is Ok,
        forall|i: int|
            0 <= i < reply->Documents_documents->0@.len() ==> (
            #[trigger] reply->Documents_documents->0@[i]).content->0@.len() <= limit,
    ensures
        forall|i: int|
            0 <= i < result->Ok_0.documents@.len() ==> (
            #[trigger] result->Ok_0.documents@[i]).content@.len() <= limit,
{
}

/// The same reply always yields the same string result: the same text and
/// the same metadata, with the same keys, or the same failure. Whether two
/// calls get the same reply is up to the engine.
pub proof fn same_reply_same_string_result<H>(
    reply: RawReply<H>,
    first: ExtractResult<(String, Metadata)>,
    second: ExtractResult<(String, Metadata)>,
)
    requires
        is_string_result(reply, first),
        is_string_result(reply, second),
    ensures
        first is Ok <==> second is Ok,
        first is Ok ==> {
            &&& first->Ok_0.0 == second->Ok_0.0
            &&& first->Ok_0.1@ == second->Ok_0.1@
            &&& first->Ok_0.1@.dom() == second->Ok_0.1@.dom()
        },
        first is Err ==> first->Err_0.spec_kind() == second->Err_0.spec_kind()
            && first->Err_0.spec_message() == second->Err_0.spec_message(),
{
}

/// The same reply always yields the same recursive result: as many
/// documents, each with the same text and the same metadata, or the same
/// failure. Whether two calls get the same reply is up to the engine.
pub proof fn same_reply_same_recursive_result<H>(
    reply: RawReply<H>,
    first: ExtractResult<RecursiveExtraction>,
    second: ExtractResult<RecursiveExtraction>,
)
    requires
        is_recursive_result(reply, first),
        is_recursive_result(reply, second),
    ensures
        first is Ok <==> second is Ok,
        first is Ok ==> {
            &&& first->Ok_0.documents@.len() == second->Ok_0.documents@.len()
            &&& forall|i: int|
                0 <= i < first->Ok_0.documents@.len() ==> (#[trigger] first->Ok_0.documents@[i])@
                    == second->Ok_0.documents@[i]@
        },
        first is Err ==> first->Err_0.spec_kind() == second->Err_0.spec_kind()
            && first->Err_0.spec_message() == second->Err_0.spec_message(),
{
}

} // verus!

//! Extracted documents and the result of a recursive extraction.

use vstd::prelude::*;
use crate::metadata::{Metadata, MetadataView};

verus! {

/// A single extracted unit: a top-level container or one document that was
/// found embedded in it.
#[derive(Debug, Clone)]
pub struct Document {
    /// The extracted text.
    pub content: String,
    /// The document's metadata.
    pub metadata: Metadata,
}

/// The mathematical value of a document.
pub struct DocumentView {
    pub content: Seq<char>,
    pub metadata: MetadataView,
}

impl View for Document {
    type V = DocumentView;

    open spec fn view(&self) -> DocumentView {
        DocumentView { content: self.content@, metadata: self.metadata@ }
    }
}

impl Document {
    /// Creates a document from its text and metadata.
    pub fn new(content: String, metadata: Metadata) -> (document: Self)
        ensures
            document.content == content,
            document.metadata == metadata,
    {
        Self { content, metadata }
    }
}

/// The documents that follow the container in a list of documents.
pub open spec fn embedded_of<T>(documents: Seq<T>) -> Seq<T> {
    if documents.len() > 1 {
        documents.subrange(1, documents.len() as int)
    } else {
        Seq::empty()
    }
}

/// The result of a recursive extraction: the container document, followed by
/// the documents embedded in it, in the order in which the engine found them.
///
/// A successful extraction holds at least the container.
#[derive(Debug, Clone)]
pub struct RecursiveExtraction {
    /// `documents[0]` is the container; `documents[1..]` are the embedded
    /// documents.
    pub documents: Vec<Document>,
}

impl RecursiveExtraction {
    /// What holds of every successful extraction: the container is there.
    pub open spec fn has_container(&self) -> bool {
        self.documents@.len() >= 1
    }

    /// Creates a result from its documents.
    pub fn new(documents: Vec<Document>) -> (extraction: Self)
        ensures
            extraction.documents == documents,
    {
        Self { documents }
    }

    /// Returns the container document, the first of the list.
    pub fn container(&self) -> (container: Option<&Document>)
        ensures
            self.documents@.len() == 0 ==> container is None,
            self.documents@.len() > 0 ==> container == Some(&self.documents@[0]),
    {
        if self.documents.len() > 0 {
            Some(&self.documents[0])
        } else {
            None
        }
    }

    /// Returns the embedded documents: all but the container.
    pub fn embedded_documents(&self) -> (embedded: &[Document])
        ensures
            embedded@ == embedded_of(self.documents@),
    {
        if self.documents.len() > 1 {
            let all = self.documents.as_slice();
            let (_, embedded) = all.split_at(1);
            embedded
        } else {
            let (embedded, _) = self.documents.as_slice().split_at(0);
            embedded
        }
    }

    /// Returns the number of documents, the container included.
    pub fn total_count(&self) -> (count: usize)
        ensures
            count == self.documents@.len(),
    {
        self.documents.len()
    }
}

/// The embedded documents are all documents but the container: one fewer
/// than the total where there is a container, and none where the container
/// stands alone.
pub proof fn embedded_count<T>(documents: Seq<T>)
    ensures
        documents.len() >= 1 ==> embedded_of(documents).len() == documents.len() - 1,
        documents.len() <= 1 ==> embedded_of(documents).len() == 0,
        forall|i: int|
            0 <= i < embedded_of(documents).len() ==> embedded_of(documents)[i] == documents[i + 1],
{
}

/// The container and the embedded documents together are the whole list.
pub proof fn container_then_embedded<T>(documents: Seq<T>)
    requires
        documents.len() >= 1,
    ensures
        seq![documents[0]] + embedded_of(documents) == documents,
{
}

} // verus!

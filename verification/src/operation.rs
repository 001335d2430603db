//! The remote operations of the parsing engine and the requests sent to
//! them.
//!
//! The set of operations is fixed: there is no discovery at run time. Each
//! operation has a name, an ordered list of parameter types and a result
//! type; its signature follows from these.

use vstd::prelude::*;
use crate::config::{OfficeParserConfig, PdfParserConfig, TesseractOcrConfig, TesseractOcrConfigView};
use crate::marshal::{method_signature, spec_method_signature, RemoteType};

verus! {

/// Where the document comes from.
#[derive(Debug, Clone, Copy, PartialEq, Eq, Hash, Structural)]
pub enum SourceKind {
    /// A path in the local file system.
    Path,
    /// A buffer in memory.
    Bytes,
    /// A URL.
    Url,
}

/// The three shapes in which the engine hands back a result.
#[derive(Debug, Clone, Copy, PartialEq, Eq, Hash, Structural)]
pub enum ResultShape {
    /// A remote reader with the metadata.
    Reader,
    /// The text with the metadata.
    Text,
    /// A list of documents, the container first.
    Documents,
}

impl ResultShape {
    /// The remote type of a result of this shape.
    pub open spec fn spec_remote_type(self) -> RemoteType {
        match self {
            ResultShape::Reader => RemoteType::ReaderResult,
            ResultShape::Text => RemoteType::StringResult,
            ResultShape::Documents => RemoteType::RecursiveResult,
        }
    }

    /// Returns the remote type of a result of this shape.
    pub fn remote_type(&self) -> (remote: RemoteType)
        ensures
            remote == self.spec_remote_type(),
    {
        match self {
            ResultShape::Reader => RemoteType::ReaderResult,
            ResultShape::Text => RemoteType::StringResult,
            ResultShape::Documents => RemoteType::RecursiveResult,
        }
    }
}

/// The remote operations: nine extractions, one for each kind of source and
/// each shape of result, and two diagnostics.
#[derive(Debug, Clone, Copy, PartialEq, Eq, Hash, Structural)]
pub enum Operation {
    ParseFile,
    ParseBytes,
    ParseUrl,
    ParseFileToString,
    ParseBytesToString,
    ParseUrlToString,
    ParseFileRecursive,
    ParseBytesRecursive,
    ParseUrlRecursive,
    GetMemoryUsage,
    TriggerGarbageCollection,
}

impl Operation {
    /// The extraction for a kind of source and a shape of result.
    pub open spec fn spec_extraction(source: SourceKind, shape: ResultShape) -> Operation {
        match (source, shape) {
            (SourceKind::Path, ResultShape::Reader) => Operation::ParseFile,
            (SourceKind::Bytes, ResultShape::Reader) => Operation::ParseBytes,
            (SourceKind::Url, ResultShape::Reader) => Operation::ParseUrl,
            (SourceKind::Path, ResultShape::Text) => Operation::ParseFileToString,
            (SourceKind::Bytes, ResultShape::Text) => Operation::ParseBytesToString,
            (SourceKind::Url, ResultShape::Text) => Operation::ParseUrlToString,
            (SourceKind::Path, ResultShape::Documents) => Operation::ParseFileRecursive,
            (SourceKind::Bytes, ResultShape::Documents) => Operation::ParseBytesRecursive,
            (SourceKind::Url, ResultShape::Documents) => Operation::ParseUrlRecursive,
        }
    }

    /// The kind of source an extraction reads; `None` for a diagnostic.
    pub open spec fn spec_source(self) -> Option<SourceKind> {
        match self {
            Operation::ParseFile | Operation::ParseFileToString | Operation::ParseFileRecursive => Some(
                SourceKind::Path,
            ),
            Operation::ParseBytes | Operation::ParseBytesToString | Operation::ParseBytesRecursive => Some(
                SourceKind::Bytes,
            ),
            Operation::ParseUrl | Operation::ParseUrlToString | Operation::ParseUrlRecursive => Some(
                SourceKind::Url,
            ),
            Operation::GetMemoryUsage | Operation::TriggerGarbageCollection => None,
        }
    }

    /// The shape of the operation's result. A diagnostic relays its status
    /// as a string result.
    pub open spec fn spec_shape(self) -> ResultShape {
        match self {
            Operation::ParseFile | Operation::ParseBytes | Operation::ParseUrl => ResultShape::Reader,
            Operation::ParseFileToString
            | Operation::ParseBytesToString
            | Operation::ParseUrlToString
            | Operation::GetMemoryUsage
            | Operation::TriggerGarbageCollection => ResultShape::Text,
            Operation::ParseFileRecursive
            | Operation::ParseBytesRecursive
            | Operation::ParseUrlRecursive => ResultShape::Documents,
        }
    }

    /// The name of the remote method.
    pub open spec fn spec_method_name(self) -> Seq<char> {
        match self {
            Operation::ParseFile => "parseFile"@,
            Operation::ParseBytes => "parseBytes"@,
            Operation::ParseUrl => "parseUrl"@,
            Operation::ParseFileToString => "parseFileToString"@,
            Operation::ParseBytesToString => "parseBytesToString"@,
            Operation::ParseUrlToString => "parseUrlToString"@,
            Operation::ParseFileRecursive => "parseFileRecursive"@,
            Operation::ParseBytesRecursive => "parseBytesRecursive"@,
            Operation::ParseUrlRecursive => "parseUrlRecursive"@,
            Operation::GetMemoryUsage => "getMemoryUsage"@,
            Operation::TriggerGarbageCollection => "triggerGarbageCollection"@,
        }
    }

    /// The types of the operation's parameters, in order.
    ///
    /// An extraction takes the source, then the charset name (for a streamed
    /// result) or the maximum length (for the other two shapes), the three
    /// parser configurations, and the flag for XML output; all but the
    /// recursive extractions also take the flag for embedded documents. A
    /// diagnostic takes nothing.
    pub open spec fn spec_parameters(self) -> Seq<RemoteType> {
        match self.spec_source() {
            None => Seq::empty(),
            Some(source) => {
                let first = match source {
                    SourceKind::Bytes => RemoteType::ByteBuffer,
                    _ => RemoteType::Text,
                };
                match self.spec_shape() {
                    ResultShape::Reader => seq![
                        first,
                        RemoteType::Text,
                        RemoteType::PdfParserConfig,
                        RemoteType::OfficeParserConfig,
                        RemoteType::TesseractOcrConfig,
                        RemoteType::Bool,
                        RemoteType::Bool,
                    ],
                    ResultShape::Text => seq![
                        first,
                        RemoteType::Int,
                        RemoteType::PdfParserConfig,
                        RemoteType::OfficeParserConfig,
                        RemoteType::TesseractOcrConfig,
                        RemoteType::Bool,
                        RemoteType::Bool,
                    ],
                    ResultShape::Documents => seq![
                        first,
                        RemoteType::Int,
                        RemoteType::PdfParserConfig,
                        RemoteType::OfficeParserConfig,
                        RemoteType::TesseractOcrConfig,
                        RemoteType::Bool,
                    ],
                }
            },
        }
    }

    /// The operation's signature, derived from its parameter types and the
    /// type of its result.
    pub open spec fn spec_signature(self) -> Seq<char> {
        spec_method_signature(self.spec_parameters(), self.spec_shape().spec_remote_type())
    }

    /// Returns the extraction for a kind of source and a shape of result.
    pub fn extraction(source: SourceKind, shape: ResultShape) -> (operation: Operation)
        ensures
            operation == Operation::spec_extraction(source, shape),
            operation.spec_source() == Some(source),
            operation.spec_shape() == shape,
    {
        match (source, shape) {
            (SourceKind::Path, ResultShape::Reader) => Operation::ParseFile,
            (SourceKind::Bytes, ResultShape::Reader) => Operation::ParseBytes,
            (SourceKind::Url, ResultShape::Reader) => Operation::ParseUrl,
            (SourceKind::Path, ResultShape::Text) => Operation::ParseFileToString,
            (SourceKind::Bytes, ResultShape::Text) => Operation::ParseBytesToString,
            (SourceKind::Url, ResultShape::Text) => Operation::ParseUrlToString,
            (SourceKind::Path, ResultShape::Documents) => Operation::ParseFileRecursive,
            (SourceKind::Bytes, ResultShape::Documents) => Operation::ParseBytesRecursive,
            (SourceKind::Url, ResultShape::Documents) => Operation::ParseUrlRecursive,
        }
    }

    /// Returns the kind of source an extraction reads, `None` for a
    /// diagnostic.
    pub fn source(&self) -> (source: Option<SourceKind>)
        ensures
            source == self.spec_source(),
    {
        match self {
            Operation::ParseFile | Operation::ParseFileToString | Operation::ParseFileRecursive => Some(
                SourceKind::Path,
            ),
            Operation::ParseBytes | Operation::ParseBytesToString | Operation::ParseBytesRecursive => Some(
                SourceKind::Bytes,
            ),
            Operation::ParseUrl | Operation::ParseUrlToString | Operation::ParseUrlRecursive => Some(
                SourceKind::Url,
            ),
            Operation::GetMemoryUsage | Operation::TriggerGarbageCollection => None,
        }
    }

    /// Returns the shape of the operation's result.
    pub fn shape(&self) -> (shape: ResultShape)
        ensures
            shape == self.spec_shape(),
    {
        match self {
            Operation::ParseFile | Operation::ParseBytes | Operation::ParseUrl => ResultShape::Reader,
            Operation::ParseFileToString
            | Operation::ParseBytesToString
            | Operation::ParseUrlToString
            | Operation::GetMemoryUsage
            | Operation::TriggerGarbageCollection => ResultShape::Text,
            Operation::ParseFileRecursive
            | Operation::ParseBytesRecursive
            | Operation::ParseUrlRecursive => ResultShape::Documents,
        }
    }

    /// Returns the name of the remote method.
    pub fn method_name(&self) -> (name: &'static str)
        ensures
            name@ == self.spec_method_name(),
    {
        match self {
            Operation::ParseFile => "parseFile",
            Operation::ParseBytes => "parseBytes",
            Operation::ParseUrl => "parseUrl",
            Operation::ParseFileToString => "parseFileToString",
            Operation::ParseBytesToString => "parseBytesToString",
            Operation::ParseUrlToString => "parseUrlToString",
            Operation::ParseFileRecursive => "parseFileRecursive",
            Operation::ParseBytesRecursive => "parseBytesRecursive",
            Operation::ParseUrlRecursive => "parseUrlRecursive",
            Operation::GetMemoryUsage => "getMemoryUsage",
            Operation::TriggerGarbageCollection => "triggerGarbageCollection",
        }
    }

    /// Returns the types of the operation's parameters, in order.
    pub fn parameters(&self) -> (parameters: Vec<RemoteType>)
        ensures
            parameters@ == self.spec_parameters(),
    {
        let mut parameters: Vec<RemoteType> = Vec::new();
        match self.source() {
            None => {},
            Some(source) => {
                let first = match source {
                    SourceKind::Bytes => RemoteType::ByteBuffer,
                    _ => RemoteType::Text,
                };
                let shape = self.shape();
                parameters.push(first);
                match shape {
                    ResultShape::Reader => parameters.push(RemoteType::Text),
                    _ => parameters.push(RemoteType::Int),
                }
                parameters.push(RemoteType::PdfParserConfig);
                parameters.push(RemoteType::OfficeParserConfig);
                parameters.push(RemoteType::TesseractOcrConfig);
                parameters.push(RemoteType::Bool);
                match shape {
                    ResultShape::Documents => {},
                    _ => parameters.push(RemoteType::Bool),
                }
            },
        }
        parameters
    }

    /// Returns the operation's signature.
    pub fn signature(&self) -> (signature: String)
        ensures
            signature@ == self.spec_signature(),
    {
        let parameters = self.parameters();
        method_signature(&parameters, self.shape().remote_type())
    }
}

/// The remote class that holds every operation.
pub open spec fn spec_engine_class() -> Seq<char> {
    "ai/yobix/TikaNativeMain"@
}

/// Returns the remote class that holds every operation.
pub fn engine_class() -> (class: &'static str)
    ensures
        class@ == spec_engine_class(),
{
    "ai/yobix/TikaNativeMain"
}

/// One argument of a request. Strings, buffers and configurations are
/// borrowed from the caller, who keeps them valid and unchanged while the
/// call runs.
#[derive(Debug, Clone, Copy, PartialEq, Eq)]
pub enum Argument<'a> {
    Text(&'a str),
    Bytes(&'a [u8]),
    Int(i32),
    Bool(bool),
    Pdf(&'a PdfParserConfig),
    Office(&'a OfficeParserConfig),
    Ocr(&'a TesseractOcrConfig),
}

/// The mathematical value of an argument.
pub enum ArgumentView {
    Text(Seq<char>),
    Bytes(Seq<u8>),
    Int(i32),
    Bool(bool),
    Pdf(PdfParserConfig),
    Office(OfficeParserConfig),
    Ocr(TesseractOcrConfigView),
}

impl ArgumentView {
    /// The remote type of the argument.
    pub open spec fn remote_type(self) -> RemoteType {
        match self {
            ArgumentView::Text(_) => RemoteType::Text,
            ArgumentView::Bytes(_) => RemoteType::ByteBuffer,
            ArgumentView::Int(_) => RemoteType::Int,
            ArgumentView::Bool(_) => RemoteType::Bool,
            ArgumentView::Pdf(_) => RemoteType::PdfParserConfig,
            ArgumentView::Office(_) => RemoteType::OfficeParserConfig,
            ArgumentView::Ocr(_) => RemoteType::TesseractOcrConfig,
        }
    }
}

impl<'a> View for Argument<'a> {
    type V = ArgumentView;

    open spec fn view(&self) -> ArgumentView {
        match self {
            Argument::Text(text) => ArgumentView::Text(text@),
            Argument::Bytes(bytes) => ArgumentView::Bytes(bytes@),
            Argument::Int(number) => ArgumentView::Int(*number),
            Argument::Bool(flag) => ArgumentView::Bool(*flag),
            Argument::Pdf(config) => ArgumentView::Pdf(**config),
            Argument::Office(config) => ArgumentView::Office(**config),
            Argument::Ocr(config) => ArgumentView::Ocr(config@),
        }
    }
}

impl<'a> Argument<'a> {
    /// Returns the remote type of the argument.
    pub fn remote_type(&self) -> (remote: RemoteType)
        ensures
            remote == self@.remote_type(),
    {
        match self {
            Argument::Text(_) => RemoteType::Text,
            Argument::Bytes(_) => RemoteType::ByteBuffer,
            Argument::Int(_) => RemoteType::Int,
            Argument::Bool(_) => RemoteType::Bool,
            Argument::Pdf(_) => RemoteType::PdfParserConfig,
            Argument::Office(_) => RemoteType::OfficeParserConfig,
            Argument::Ocr(_) => RemoteType::TesseractOcrConfig,
        }
    }
}

/// The mathematical values of a list of arguments.
pub open spec fn argument_views(arguments: Seq<Argument>) -> Seq<ArgumentView> {
    Seq::new(arguments.len(), |i: int| arguments[i]@)
}

/// The remote types of a list of arguments.
pub open spec fn argument_types(arguments: Seq<ArgumentView>) -> Seq<RemoteType> {
    Seq::new(arguments.len(), |i: int| arguments[i].remote_type())
}

/// The effective request of one call: the operation and its arguments in
/// order, after the stored defaults and the per-call overrides were merged.
#[derive(Debug, Clone, PartialEq, Eq)]
pub struct ExtractionRequest<'a> {
    /// The remote operation.
    pub operation: Operation,
    /// The arguments, in the order of the operation's parameters.
    pub arguments: Vec<Argument<'a>>,
}

/// The mathematical value of a request.
pub struct RequestView {
    pub operation: Operation,
    pub arguments: Seq<ArgumentView>,
}

impl RequestView {
    /// The arguments agree with the operation's parameters in number and in
    /// type, so the request can be sent under the operation's signature.
    pub open spec fn well_typed(self) -> bool {
        argument_types(self.arguments) == self.operation.spec_parameters()
    }
}

impl<'a> View for ExtractionRequest<'a> {
    type V = RequestView;

    open spec fn view(&self) -> RequestView {
        RequestView { operation: self.operation, arguments: argument_views(self.arguments@) }
    }
}

impl<'a> ExtractionRequest<'a> {
    /// Says whether the arguments agree with the operation's parameters in
    /// number and in type.
    pub fn is_well_typed(&self) -> (well_typed: bool)
        ensures
            well_typed == self@.well_typed(),
    {
        let parameters = self.operation.parameters();
        if parameters.len() != self.arguments.len() {
            return false;
        }
        let mut at: usize = 0;
        while at < parameters.len()
            invariant
                at <= parameters@.len(),
                parameters@.len() == self.arguments@.len(),
                parameters@ == self.operation.spec_parameters(),
                forall|i: int|
                    0 <= i < at ==> argument_types(self@.arguments)[i] == parameters@[i],
            decreases parameters@.len() - at,
        {
            if self.arguments[at].remote_type() != parameters[at] {
                return false;
            }
            at += 1;
        }
        assert(argument_types(self@.arguments) =~= self.operation.spec_parameters());
        true
    }

    /// Returns the name of the remote method to call.
    pub fn method_name(&self) -> (name: &'static str)
        ensures
            name@ == self.operation.spec_method_name(),
    {
        self.operation.method_name()
    }

    /// Returns the signature under which the request is sent.
    pub fn signature(&self) -> (signature: String)
        ensures
            signature@ == self.operation.spec_signature(),
    {
        self.operation.signature()
    }
}

} // verus!

//! Bridge between a host program and a document-parsing engine that runs
//! inside an embedded managed runtime.
//!
//! The crate holds the decisions of that bridge as verified code: how a call
//! is assembled from the stored configuration and the per-call overrides,
//! which remote operation it names, how the three result shapes are checked
//! and turned into owned values, and how a remote reader is exposed as a
//! blocking byte source. Crossing into the runtime itself is left to the
//! caller, who performs each action this crate asks for and reports back what
//! happened.

pub mod call;
pub mod charset;
pub mod config;
pub mod document;
pub mod errors;
pub mod extractor;
pub mod marshal;
pub mod metadata;
pub mod operation;
pub mod parse;
pub mod session;
pub mod stream;
pub mod unmarshal;

pub use call::{Call, CallAction, CallEvent, CallState, Extraction};
pub use charset::CharSet;
pub use config::{OfficeParserConfig, PdfOcrStrategy, PdfParserConfig, TesseractOcrConfig};
pub use document::{Document, RecursiveExtraction};
pub use errors::{Error, ErrorKind, ExtractResult};
pub use extractor::Extractor;
pub use marshal::{jboolean, method_signature, FieldAssignment, FieldValue, RemoteType};
pub use metadata::{Entry, Metadata};
pub use operation::{engine_class, Argument, ExtractionRequest, Operation, ResultShape, SourceKind};
pub use parse::{
    get_jvm_memory_usage, parse_bytes, parse_bytes_recursive, parse_bytes_to_string, parse_file,
    parse_file_recursive, parse_file_to_string, parse_recursive, parse_to_stream, parse_to_string,
    parse_url, parse_url_recursive, parse_url_to_string, trigger_jvm_gc,
};
pub use stream::{
    ReadEvent, ReadPhase, ReadRequest, ReadStep, StreamReader, DEFAULT_BUF_SIZE, MAX_READ_LENGTH,
};
pub use unmarshal::{
    reader_result, recursive_result, status_result, string_result, RawDocument, RawReply,
};
pub use session::{Session, SessionAction};

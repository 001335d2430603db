//! Assembling the request for each remote operation.
//!
//! The functions here decide what is sent: which operation, and which
//! arguments in which order. They send nothing themselves. What comes back
//! is checked and converted by the functions of [`crate::unmarshal`].

use vstd::prelude::*;
use crate::charset::CharSet;
use crate::config::{OfficeParserConfig, PdfParserConfig, TesseractOcrConfig, TesseractOcrConfigView};
use crate::operation::{
    argument_types, argument_views, Argument, ArgumentView, ExtractionRequest, Operation, RequestView,
};

verus! {

/// The arguments of an extraction to a stream: the source, the name of the
/// charset, the three configurations, and the two flags.
pub open spec fn stream_arguments(
    data_source: ArgumentView,
    char_set: CharSet,
    pdf_conf: PdfParserConfig,
    office_conf: OfficeParserConfig,
    ocr_conf: TesseractOcrConfigView,
    as_xml: bool,
    as_embedded: bool,
) -> Seq<ArgumentView> {
    seq![
        data_source,
        ArgumentView::Text(char_set.spec_name()),
        ArgumentView::Pdf(pdf_conf),
        ArgumentView::Office(office_conf),
        ArgumentView::Ocr(ocr_conf),
        ArgumentView::Bool(as_xml),
        ArgumentView::Bool(as_embedded),
    ]
}

/// The arguments of an extraction to a string: the source, the maximum
/// length, the three configurations, and the two flags.
pub open spec fn string_arguments(
    data_source: ArgumentView,
    max_length: i32,
    pdf_conf: PdfParserConfig,
    office_conf: OfficeParserConfig,
    ocr_conf: TesseractOcrConfigView,
    as_xml: bool,
    as_embedded: bool,
) -> Seq<ArgumentView> {
    seq![
        data_source,
        ArgumentView::Int(max_length),
        ArgumentView::Pdf(pdf_conf),
        ArgumentView::Office(office_conf),
        ArgumentView::Ocr(ocr_conf),
        ArgumentView::Bool(as_xml),
        ArgumentView::Bool(as_embedded),
    ]
}

/// The arguments of a recursive extraction: the source, the maximum length
/// of each document's text, the three configurations, and the flag for XML
/// output.
pub open spec fn recursive_arguments(
    data_source: ArgumentView,
    max_length: i32,
    pdf_conf: PdfParserConfig,
    office_conf: OfficeParserConfig,
    ocr_conf: TesseractOcrConfigView,
    as_xml: bool,
) -> Seq<ArgumentView> {
    seq![
        data_source,
        ArgumentView::Int(max_length),
        ArgumentView::Pdf(pdf_conf),
        ArgumentView::Office(office_conf),
        ArgumentView::Ocr(ocr_conf),
        ArgumentView::Bool(as_xml),
    ]
}

/// Assembles the request of an extraction to a stream from the given source.
///
/// The request is well typed where the source is of the kind that the
/// operation reads and the operation hands back a reader.
pub fn parse_to_stream<'a>(
    data_source: Argument<'a>,
    char_set: &CharSet,
    pdf_conf: &'a PdfParserConfig,
    office_conf: &'a OfficeParserConfig,
    ocr_conf: &'a TesseractOcrConfig,
    as_xml: bool,
    as_embedded: bool,
    operation: Operation,
) -> (request: ExtractionRequest<'a>)
    ensures
        request@ == (RequestView {
            operation,
            arguments: stream_arguments(
                data_source@,
                *char_set,
                *pdf_conf,
                *office_conf,
                ocr_conf@,
                as_xml,
                as_embedded,
            ),
        }),
{
    let mut arguments: Vec<Argument<'a>> = Vec::new();
    arguments.push(data_source);
    arguments.push(Argument::Text(char_set.name()));
    arguments.push(Argument::Pdf(pdf_conf));
    arguments.push(Argument::Office(office_conf));
    arguments.push(Argument::Ocr(ocr_conf));
    arguments.push(Argument::Bool(as_xml));
    arguments.push(Argument::Bool(as_embedded));
    assert(argument_views(arguments@) =~= stream_arguments(
        data_source@,
        *char_set,
        *pdf_conf,
        *office_conf,
        ocr_conf@,
        as_xml,
        as_embedded,
    ));
    ExtractionRequest { operation, arguments }
}

/// Assembles the request that extracts the file at a path to a stream,
/// decoded with the given charset.
pub fn parse_file<'a>(
    file_path: &'a str,
    char_set: &CharSet,
    pdf_conf: &'a PdfParserConfig,
    office_conf: &'a OfficeParserConfig,
    ocr_conf: &'a TesseractOcrConfig,
    as_xml: bool,
    as_embedded: bool,
) -> (request: ExtractionRequest<'a>)
    ensures
        request@ == (RequestView {
            operation: Operation::ParseFile,
            arguments: stream_arguments(
                ArgumentView::Text(file_path@),
                *char_set,
                *pdf_conf,
                *office_conf,
                ocr_conf@,
                as_xml,
                as_embedded,
            ),
        }),
        request@.well_typed(),
{
    let request = parse_to_stream(
        Argument::Text(file_path),
        char_set,
        pdf_conf,
        office_conf,
        ocr_conf,
        as_xml,
        as_embedded,
        Operation::ParseFile,
    );
    assert(argument_types(request@.arguments) =~= Operation::ParseFile.spec_parameters());
    request
}

/// Assembles the request that extracts a buffer of bytes to a stream,
/// decoded with the given charset. The engine only reads the buffer.
pub fn parse_bytes<'a>(
    buffer: &'a [u8],
    char_set: &CharSet,
    pdf_conf: &'a PdfParserConfig,
    office_conf: &'a OfficeParserConfig,
    ocr_conf: &'a TesseractOcrConfig,
    as_xml: bool,
    as_embedded: bool,
) -> (request: ExtractionRequest<'a>)
    ensures
        request@ == (RequestView {
            operation: Operation::ParseBytes,
            arguments: stream_arguments(
                ArgumentView::Bytes(buffer@),
                *char_set,
                *pdf_conf,
                *office_conf,
                ocr_conf@,
                as_xml,
                as_embedded,
            ),
        }),
        request@.well_typed(),
{
    let request = parse_to_stream(
        Argument::Bytes(buffer),
        char_set,
        pdf_conf,
        office_conf,
        ocr_conf,
        as_xml,
        as_embedded,
        Operation::ParseBytes,
    );
    assert(argument_types(request@.arguments) =~= Operation::ParseBytes.spec_parameters());
    request
}

/// Assembles the request that extracts the document at a URL to a stream,
/// decoded with the given charset.
pub fn parse_url<'a>(
    url: &'a str,
    char_set: &CharSet,
    pdf_conf: &'a PdfParserConfig,
    office_conf: &'a OfficeParserConfig,
    ocr_conf: &'a TesseractOcrConfig,
    as_xml: bool,
    as_embedded: bool,
) -> (request: ExtractionRequest<'a>)
    ensures
        request@ == (RequestView {
            operation: Operation::ParseUrl,
            arguments: stream_arguments(
                ArgumentView::Text(url@),
                *char_set,
                *pdf_conf,
                *office_conf,
                ocr_conf@,
                as_xml,
                as_embedded,
            ),
        }),
        request@.well_typed(),
{
    let request = parse_to_stream(
        Argument::Text(url),
        char_set,
        pdf_conf,
        office_conf,
        ocr_conf,
        as_xml,
        as_embedded,
        Operation::ParseUrl,
    );
    assert(argument_types(request@.arguments) =~= Operation::ParseUrl.spec_parameters());
    request
}

/// Assembles the request of an extraction to a string from the given source.
/// A negative maximum length stands for no limit.
///
/// The request is well typed where the source is of the kind that the
/// operation reads and the operation hands back a string result.
pub fn parse_to_string<'a>(
    data_source: Argument<'a>,
    max_length: i32,
    pdf_conf: &'a PdfParserConfig,
    office_conf: &'a OfficeParserConfig,
    ocr_conf: &'a TesseractOcrConfig,
    as_xml: bool,
    as_embedded: bool,
    operation: Operation,
) -> (request: ExtractionRequest<'a>)
    ensures
        request@ == (RequestView {
            operation,
            arguments: string_arguments(
                data_source@,
                max_length,
                *pdf_conf,
                *office_conf,
                ocr_conf@,
                as_xml,
                as_embedded,
            ),
        }),
{
    let mut arguments: Vec<Argument<'a>> = Vec::new();
    arguments.push(data_source);
    arguments.push(Argument::Int(max_length));
    arguments.push(Argument::Pdf(pdf_conf));
    arguments.push(Argument::Office(office_conf));
    arguments.push(Argument::Ocr(ocr_conf));
    arguments.push(Argument::Bool(as_xml));
    arguments.push(Argument::Bool(as_embedded));
    assert(argument_views(arguments@) =~= string_arguments(
        data_source@,
        max_length,
        *pdf_conf,
        *office_conf,
        ocr_conf@,
        as_xml,
        as_embedded,
    ));
    ExtractionRequest { operation, arguments }
}

/// Assembles the request that extracts the file at a path to a string of at
/// most `max_length` characters; a negative `max_length` stands for no limit.
pub fn parse_file_to_string<'a>(
    file_path: &'a str,
    max_length: i32,
    pdf_conf: &'a PdfParserConfig,
    office_conf: &'a OfficeParserConfig,
    ocr_conf: &'a TesseractOcrConfig,
    as_xml: bool,
    as_embedded: bool,
) -> (request: ExtractionRequest<'a>)
    ensures
        request@ == (RequestView {
            operation: Operation::ParseFileToString,
            arguments: string_arguments(
                ArgumentView::Text(file_path@),
                max_length,
                *pdf_conf,
                *office_conf,
                ocr_conf@,
                as_xml,
                as_embedded,
            ),
        }),
        request@.well_typed(),
{
    let request = parse_to_string(
        Argument::Text(file_path),
        max_length,
        pdf_conf,
        office_conf,
        ocr_conf,
        as_xml,
        as_embedded,
        Operation::ParseFileToString,
    );
    assert(argument_types(request@.arguments) =~= Operation::ParseFileToString.spec_parameters());
    request
}

/// Assembles the request that extracts a buffer of bytes to a string of at
/// most `max_length` characters; a negative `max_length` stands for no limit.
/// The engine only reads the buffer.
pub fn parse_bytes_to_string<'a>(
    buffer: &'a [u8],
    max_length: i32,
    pdf_conf: &'a PdfParserConfig,
    office_conf: &'a OfficeParserConfig,
    ocr_conf: &'a TesseractOcrConfig,
    as_xml: bool,
    as_embedded: bool,
) -> (request: ExtractionRequest<'a>)
    ensures
        request@ == (RequestView {
            operation: Operation::ParseBytesToString,
            arguments: string_arguments(
                ArgumentView::Bytes(buffer@),
                max_length,
                *pdf_conf,
                *office_conf,
                ocr_conf@,
                as_xml,
                as_embedded,
            ),
        }),
        request@.well_typed(),
{
    let request = parse_to_string(
        Argument::Bytes(buffer),
        max_length,
        pdf_conf,
        office_conf,
        ocr_conf,
        as_xml,
        as_embedded,
        Operation::ParseBytesToString,
    );
    assert(argument_types(request@.arguments) =~= Operation::ParseBytesToString.spec_parameters());
    request
}

/// Assembles the request that extracts the document at a URL to a string of
/// at most `max_length` characters; a negative `max_length` stands for no
/// limit.
pub fn parse_url_to_string<'a>(
    url: &'a str,
    max_length: i32,
    pdf_conf: &'a PdfParserConfig,
    office_conf: &'a OfficeParserConfig,
    ocr_conf: &'a TesseractOcrConfig,
    as_xml: bool,
    as_embedded: bool,
) -> (request: ExtractionRequest<'a>)
    ensures
        request@ == (RequestView {
            operation: Operation::ParseUrlToString,
            arguments: string_arguments(
                ArgumentView::Text(url@),
                max_length,
                *pdf_conf,
                *office_conf,
                ocr_conf@,
                as_xml,
                as_embedded,
            ),
        }),
        request@.well_typed(),
{
    let request = parse_to_string(
        Argument::Text(url),
        max_length,
        pdf_conf,
        office_conf,
        ocr_conf,
        as_xml,
        as_embedded,
        Operation::ParseUrlToString,
    );
    assert(argument_types(request@.arguments) =~= Operation::ParseUrlToString.spec_parameters());
    request
}

/// Assembles the request of a recursive extraction from the given source.
/// Embedded documents are always included; a negative maximum length stands
/// for no limit.
///
/// The request is well typed where the source is of the kind that the
/// operation reads and the operation hands back a list of documents.
pub fn parse_recursive<'a>(
    data_source: Argument<'a>,
    max_length: i32,
    pdf_conf: &'a PdfParserConfig,
    office_conf: &'a OfficeParserConfig,
    ocr_conf: &'a TesseractOcrConfig,
    as_xml: bool,
    operation: Operation,
) -> (request: ExtractionRequest<'a>)
    ensures
        request@ == (RequestView {
            operation,
            arguments: recursive_arguments(
                data_source@,
                max_length,
                *pdf_conf,
                *office_conf,
                ocr_conf@,
                as_xml,
            ),
        }),
{
    let mut arguments: Vec<Argument<'a>> = Vec::new();
    arguments.push(data_source);
    arguments.push(Argument::Int(max_length));
    arguments.push(Argument::Pdf(pdf_conf));
    arguments.push(Argument::Office(office_conf));
    arguments.push(Argument::Ocr(ocr_conf));
    arguments.push(Argument::Bool(as_xml));
    assert(argument_views(arguments@) =~= recursive_arguments(
        data_source@,
        max_length,
        *pdf_conf,
        *office_conf,
        ocr_conf@,
        as_xml,
    ));
    ExtractionRequest { operation, arguments }
}

/// Assembles the request that extracts the file at a path together with
/// every document embedded in it.
pub fn parse_file_recursive<'a>(
    file_path: &'a str,
    max_length: i32,
    pdf_conf: &'a PdfParserConfig,
    office_conf: &'a OfficeParserConfig,
    ocr_conf: &'a TesseractOcrConfig,
    as_xml: bool,
) -> (request: ExtractionRequest<'a>)
    ensures
        request@ == (RequestView {
            operation: Operation::ParseFileRecursive,
            arguments: recursive_arguments(
                ArgumentView::Text(file_path@),
                max_length,
                *pdf_conf,
                *office_conf,
                ocr_conf@,
                as_xml,
            ),
        }),
        request@.well_typed(),
{
    let request = parse_recursive(
        Argument::Text(file_path),
        max_length,
        pdf_conf,
        office_conf,
        ocr_conf,
        as_xml,
        Operation::ParseFileRecursive,
    );
    assert(argument_types(request@.arguments) =~= Operation::ParseFileRecursive.spec_parameters());
    request
}

/// Assembles the request that extracts a buffer of bytes together with every
/// document embedded in it. The engine only reads the buffer.
pub fn parse_bytes_recursive<'a>(
    buffer: &'a [u8],
    max_length: i32,
    pdf_conf: &'a PdfParserConfig,
    office_conf: &'a OfficeParserConfig,
    ocr_conf: &'a TesseractOcrConfig,
    as_xml: bool,
) -> (request: ExtractionRequest<'a>)
    ensures
        request@ == (RequestView {
            operation: Operation::ParseBytesRecursive,
            arguments: recursive_arguments(
                ArgumentView::Bytes(buffer@),
                max_length,
                *pdf_conf,
                *office_conf,
                ocr_conf@,
                as_xml,
            ),
        }),
        request@.well_typed(),
{
    let request = parse_recursive(
        Argument::Bytes(buffer),
        max_length,
        pdf_conf,
        office_conf,
        ocr_conf,
        as_xml,
        Operation::ParseBytesRecursive,
    );
    assert(argument_types(request@.arguments) =~= Operation::ParseBytesRecursive.spec_parameters());
    request
}

/// Assembles the request that extracts the document at a URL together with
/// every document embedded in it.
pub fn parse_url_recursive<'a>(
    url: &'a str,
    max_length: i32,
    pdf_conf: &'a PdfParserConfig,
    office_conf: &'a OfficeParserConfig,
    ocr_conf: &'a TesseractOcrConfig,
    as_xml: bool,
) -> (request: ExtractionRequest<'a>)
    ensures
        request@ == (RequestView {
            operation: Operation::ParseUrlRecursive,
            arguments: recursive_arguments(
                ArgumentView::Text(url@),
                max_length,
                *pdf_conf,
                *office_conf,
                ocr_conf@,
                as_xml,
            ),
        }),
        request@.well_typed(),
{
    let request = parse_recursive(
        Argument::Text(url),
        max_length,
        pdf_conf,
        office_conf,
        ocr_conf,
        as_xml,
        Operation::ParseUrlRecursive,
    );
    assert(argument_types(request@.arguments) =~= Operation::ParseUrlRecursive.spec_parameters());
    request
}

/// Assembles the request that asks the runtime for its memory usage. The
/// request takes no argument and no configuration; the answer is a status
/// string.
pub fn get_jvm_memory_usage() -> (request: ExtractionRequest<'static>)
    ensures
        request@ == (RequestView {
            operation: Operation::GetMemoryUsage,
            arguments: Seq::<ArgumentView>::empty(),
        }),
        request@.well_typed(),
{
    let arguments: Vec<Argument<'static>> = Vec::new();
    assert(argument_views(arguments@) =~= Seq::<ArgumentView>::empty());
    let request = ExtractionRequest { operation: Operation::GetMemoryUsage, arguments };
    assert(argument_types(request@.arguments) =~= Operation::GetMemoryUsage.spec_parameters());
    request
}

/// Assembles the request that asks the runtime to collect garbage. The
/// request takes no argument and no configuration; the answer is a status
/// string.
pub fn trigger_jvm_gc() -> (request: ExtractionRequest<'static>)
    ensures
        request@ == (RequestView {
            operation: Operation::TriggerGarbageCollection,
            arguments: Seq::<ArgumentView>::empty(),
        }),
        request@.well_typed(),
{
    let arguments: Vec<Argument<'static>> = Vec::new();
    assert(argument_views(arguments@) =~= Seq::<ArgumentView>::empty());
    let request = ExtractionRequest { operation: Operation::TriggerGarbageCollection, arguments };
    assert(argument_types(request@.arguments) =~= Operation::TriggerGarbageCollection.spec_parameters());
    request
}

} // verus!

//! The configured entry point of the library.
//!
//! An [`Extractor`] holds the defaults of every call: the maximum length of
//! an extracted string, the encoding of a streamed result, the three parser
//! configurations, and the two flags for XML output and for embedded
//! documents. It is never changed in place: every setter returns a new
//! extractor, so one extractor can be shared and specialised by several
//! callers without interference.
//!
//! For each kind of source (a path, a buffer of bytes, a URL) and each shape
//! of result (a stream, a string, a recursive list of documents) there is an
//! operation that uses the stored defaults and one that takes overrides. An
//! override that is absent falls back to the stored default; one that is
//! present wins. Each operation hands back the request to send; it leaves
//! the extractor as it was.

use vstd::prelude::*;
use crate::charset::CharSet;
use crate::config::{OfficeParserConfig, PdfParserConfig, TesseractOcrConfig, TesseractOcrConfigView};
use crate::operation::{ArgumentView, ExtractionRequest, Operation, RequestView};
use crate::parse::{
    parse_bytes, parse_bytes_recursive, parse_bytes_to_string, parse_file, parse_file_recursive,
    parse_file_to_string, parse_url, parse_url_recursive, parse_url_to_string, recursive_arguments,
    stream_arguments, string_arguments,
};

verus! {

/// The override where there is one, the default otherwise.
pub open spec fn effective<T>(overriding: Option<T>, default: T) -> T {
    match overriding {
        Some(value) => value,
        None => default,
    }
}

/// Returns the override where there is one, the default otherwise.
pub fn merge<T>(overriding: Option<T>, default: T) -> (merged: T)
    ensures
        merged == effective(overriding, default),
{
    match overriding {
        Some(value) => value,
        None => default,
    }
}

/// The configuration that every call starts from.
#[derive(Debug, Clone)]
pub struct Extractor {
    extract_string_max_length: i32,
    encoding: CharSet,
    pdf_config: PdfParserConfig,
    office_config: OfficeParserConfig,
    ocr_config: TesseractOcrConfig,
    xml_output: bool,
    extract_embedded: bool,
}

/// The mathematical value of an extractor.
pub struct ExtractorView {
    /// The maximum length of an extracted string; negative for no limit.
    pub extract_string_max_length: i32,
    /// The encoding of a streamed result.
    pub encoding: CharSet,
    pub pdf_config: PdfParserConfig,
    pub office_config: OfficeParserConfig,
    pub ocr_config: TesseractOcrConfigView,
    /// Whether the text is handed back as XML.
    pub xml_output: bool,
    /// Whether embedded documents are extracted too.
    pub extract_embedded: bool,
}

impl ExtractorView {
    /// The defaults: no limit on the length (-1), UTF-8, the default parser
    /// configurations, plain text, embedded documents included.
    pub open spec fn spec_default() -> ExtractorView {
        ExtractorView {
            extract_string_max_length: -1i32,
            encoding: CharSet::UTF_8,
            pdf_config: PdfParserConfig::spec_default(),
            office_config: OfficeParserConfig::spec_default(),
            ocr_config: TesseractOcrConfigView::spec_default(),
            xml_output: false,
            extract_embedded: true,
        }
    }

    /// The request of an extraction to a stream with the given overrides.
    pub open spec fn stream_request(
        self,
        operation: Operation,
        data_source: ArgumentView,
        encoding: Option<CharSet>,
        as_xml: Option<bool>,
        extract_embedded: Option<bool>,
    ) -> RequestView {
        RequestView {
            operation,
            arguments: stream_arguments(
                data_source,
                effective(encoding, self.encoding),
                self.pdf_config,
                self.office_config,
                self.ocr_config,
                effective(as_xml, self.xml_output),
                effective(extract_embedded, self.extract_embedded),
            ),
        }
    }

    /// The request of an extraction to a string with the given overrides.
    pub open spec fn string_request(
        self,
        operation: Operation,
        data_source: ArgumentView,
        max_length: Option<i32>,
        as_xml: Option<bool>,
        extract_embedded: Option<bool>,
    ) -> RequestView {
        RequestView {
            operation,
            arguments: string_arguments(
                data_source,
                effective(max_length, self.extract_string_max_length),
                self.pdf_config,
                self.office_config,
                self.ocr_config,
                effective(as_xml, self.xml_output),
                effective(extract_embedded, self.extract_embedded),
            ),
        }
    }

    /// The request of a recursive extraction with the given overrides.
    pub open spec fn recursive_request(
        self,
        operation: Operation,
        data_source: ArgumentView,
        max_length: Option<i32>,
        as_xml: Option<bool>,
    ) -> RequestView {
        RequestView {
            operation,
            arguments: recursive_arguments(
                data_source,
                effective(max_length, self.extract_string_max_length),
                self.pdf_config,
                self.office_config,
                self.ocr_config,
                effective(as_xml, self.xml_output),
            ),
        }
    }
}

impl View for Extractor {
    type V = ExtractorView;

    closed spec fn view(&self) -> ExtractorView {
        ExtractorView {
            extract_string_max_length: self.extract_string_max_length,
            encoding: self.encoding,
            pdf_config: self.pdf_config,
            office_config: self.office_config,
            ocr_config: self.ocr_config@,
            xml_output: self.xml_output,
            extract_embedded: self.extract_embedded,
        }
    }
}

impl Default for Extractor {
    fn default() -> (extractor: Self)
        ensures
            extractor@ == ExtractorView::spec_default(),
    {
        Self {
            extract_string_max_length: -1,
            encoding: CharSet::UTF_8,
            pdf_config: PdfParserConfig::default(),
            office_config: OfficeParserConfig::default(),
            ocr_config: TesseractOcrConfig::default(),
            xml_output: false,
            extract_embedded: true,
        }
    }
}

impl Extractor {
    /// Creates an extractor with the defaults.
    pub fn new() -> (extractor: Self)
        ensures
            extractor@ == ExtractorView::spec_default(),
    {
        Self::default()
    }

    /// Returns the extractor with the maximum length of an extracted string
    /// changed; a negative length stands for no limit. The length applies to
    /// the extractions to a string and to each document of a recursive
    /// extraction.
    pub fn set_extract_string_max_length(self, max_length: i32) -> (extractor: Self)
        ensures
            extractor@ == (ExtractorView { extract_string_max_length: max_length, ..self@ }),
    {
        Self { extract_string_max_length: max_length, ..self }
    }

    /// Returns the extractor with the encoding of a streamed result changed.
    /// The encoding does not apply to the extractions to a string.
    pub fn set_encoding(self, encoding: CharSet) -> (extractor: Self)
        ensures
            extractor@ == (ExtractorView { encoding, ..self@ }),
    {
        Self { encoding, ..self }
    }

    /// Returns the extractor with the configuration of the PDF parser
    /// changed.
    pub fn set_pdf_config(self, config: PdfParserConfig) -> (extractor: Self)
        ensures
            extractor@ == (ExtractorView { pdf_config: config, ..self@ }),
    {
        Self { pdf_config: config, ..self }
    }

    /// Returns the extractor with the configuration of the Office parser
    /// changed.
    pub fn set_office_config(self, config: OfficeParserConfig) -> (extractor: Self)
        ensures
            extractor@ == (ExtractorView { office_config: config, ..self@ }),
    {
        Self { office_config: config, ..self }
    }

    /// Returns the extractor with the configuration of the OCR pass changed.
    pub fn set_ocr_config(self, config: TesseractOcrConfig) -> (extractor: Self)
        ensures
            extractor@ == (ExtractorView { ocr_config: config@, ..self@ }),
    {
        Self { ocr_config: config, ..self }
    }

    /// Returns the extractor with XML output switched.
    pub fn set_xml_output(self, xml_output: bool) -> (extractor: Self)
        ensures
            extractor@ == (ExtractorView { xml_output, ..self@ }),
    {
        Self { xml_output, ..self }
    }

    /// Returns the extractor with the extraction of embedded documents
    /// switched.
    pub fn set_extract_embedded(self, extract_embedded: bool) -> (extractor: Self)
        ensures
            extractor@ == (ExtractorView { extract_embedded, ..self@ }),
    {
        Self { extract_embedded, ..self }
    }

    /// Returns the maximum length of an extracted string.
    pub fn extract_string_max_length(&self) -> (max_length: i32)
        ensures
            max_length == self@.extract_string_max_length,
    {
        self.extract_string_max_length
    }

    /// Returns the encoding of a streamed result.
    pub fn encoding(&self) -> (encoding: CharSet)
        ensures
            encoding == self@.encoding,
    {
        self.encoding
    }

    /// Returns the configuration of the PDF parser.
    pub fn pdf_config(&self) -> (config: &PdfParserConfig)
        ensures
            *config == self@.pdf_config,
    {
        &self.pdf_config
    }

    /// Returns the configuration of the Office parser.
    pub fn office_config(&self) -> (config: &OfficeParserConfig)
        ensures
            *config == self@.office_config,
    {
        &self.office_config
    }

    /// Returns the configuration of the OCR pass.
    pub fn ocr_config(&self) -> (config: &TesseractOcrConfig)
        ensures
            config@ == self@.ocr_config,
    {
        &self.ocr_config
    }

    /// Says whether the text is handed back as XML.
    pub fn xml_output(&self) -> (xml_output: bool)
        ensures
            xml_output == self@.xml_output,
    {
        self.xml_output
    }

    /// Says whether embedded documents are extracted too.
    pub fn extract_embedded(&self) -> (extract_embedded: bool)
        ensures
            extract_embedded == self@.extract_embedded,
    {
        self.extract_embedded
    }

    /// Assembles the request that extracts the file at a path to a stream, decoded with
    /// the stored encoding.
    pub fn extract_file<'a>(&'a self, file_path: &'a str) -> (request: ExtractionRequest<'a>)
        ensures
            request@ == self@.stream_request(
                Operation::ParseFile,
                ArgumentView::Text(file_path@),
                None,
                None,
                None,
            ),
            request@.well_typed(),
    {
        parse_file(
            file_path,
            &self.encoding,
            &self.pdf_config,
            &self.office_config,
            &self.ocr_config,
            self.xml_output,
            self.extract_embedded,
        )
    }

    /// Assembles the request that extracts the file at a path to a stream, with
    /// overrides for the encoding, for XML output and for embedded
    /// documents. An override that is `None` falls back to the stored
    /// default.
    pub fn extract_file_opt<'a>(
        &'a self,
        file_path: &'a str,
        encoding: Option<CharSet>,
        as_xml: Option<bool>,
        extract_embedded: Option<bool>,
    ) -> (request: ExtractionRequest<'a>)
        ensures
            request@ == self@.stream_request(
                Operation::ParseFile,
                ArgumentView::Text(file_path@),
                encoding,
                as_xml,
                extract_embedded,
            ),
            request@.well_typed(),
    {
        let eff_encoding = merge(encoding, self.encoding);
        let eff_as_xml = merge(as_xml, self.xml_output);
        let eff_extract_embedded = merge(extract_embedded, self.extract_embedded);
        parse_file(
            file_path,
            &eff_encoding,
            &self.pdf_config,
            &self.office_config,
            &self.ocr_config,
            eff_as_xml,
            eff_extract_embedded,
        )
    }

    /// Assembles the request that extracts a buffer of bytes to a stream, decoded with
    /// the stored encoding.
    pub fn extract_bytes<'a>(&'a self, buffer: &'a [u8]) -> (request: ExtractionRequest<'a>)
        ensures
            request@ == self@.stream_request(
                Operation::ParseBytes,
                ArgumentView::Bytes(buffer@),
                None,
                None,
                None,
            ),
            request@.well_typed(),
    {
        parse_bytes(
            buffer,
            &self.encoding,
            &self.pdf_config,
            &self.office_config,
            &self.ocr_config,
            self.xml_output,
            self.extract_embedded,
        )
    }

    /// Assembles the request that extracts a buffer of bytes to a stream, with
    /// overrides for the encoding, for XML output and for embedded
    /// documents. An override that is `None` falls back to the stored
    /// default.
    pub fn extract_bytes_opt<'a>(
        &'a self,
        buffer: &'a [u8],
        encoding: Option<CharSet>,
        as_xml: Option<bool>,
        extract_embedded: Option<bool>,
    ) -> (request: ExtractionRequest<'a>)
        ensures
            request@ == self@.stream_request(
                Operation::ParseBytes,
                ArgumentView::Bytes(buffer@),
                encoding,
                as_xml,
                extract_embedded,
            ),
            request@.well_typed(),
    {
        let eff_encoding = merge(encoding, self.encoding);
        let eff_as_xml = merge(as_xml, self.xml_output);
        let eff_extract_embedded = merge(extract_embedded, self.extract_embedded);
        parse_bytes(
            buffer,
            &eff_encoding,
            &self.pdf_config,
            &self.office_config,
            &self.ocr_config,
            eff_as_xml,
            eff_extract_embedded,
        )
    }

    /// Assembles the request that extracts the document at a URL to a stream, decoded with
    /// the stored encoding.
    pub fn extract_url<'a>(&'a self, url: &'a str) -> (request: ExtractionRequest<'a>)
        ensures
            request@ == self@.stream_request(
                Operation::ParseUrl,
                ArgumentView::Text(url@),
                None,
                None,
                None,
            ),
            request@.well_typed(),
    {
        parse_url(
            url,
            &self.encoding,
            &self.pdf_config,
            &self.office_config,
            &self.ocr_config,
            self.xml_output,
            self.extract_embedded,
        )
    }

    /// Assembles the request that extracts the document at a URL to a stream, with
    /// overrides for the encoding, for XML output and for embedded
    /// documents. An override that is `None` falls back to the stored
    /// default.
    pub fn extract_url_opt<'a>(
        &'a self,
        url: &'a str,
        encoding: Option<CharSet>,
        as_xml: Option<bool>,
        extract_embedded: Option<bool>,
    ) -> (request: ExtractionRequest<'a>)
        ensures
            request@ == self@.stream_request(
                Operation::ParseUrl,
                ArgumentView::Text(url@),
                encoding,
                as_xml,
                extract_embedded,
            ),
            request@.well_typed(),
    {
        let eff_encoding = merge(encoding, self.encoding);
        let eff_as_xml = merge(as_xml, self.xml_output);
        let eff_extract_embedded = merge(extract_embedded, self.extract_embedded);
        parse_url(
            url,
            &eff_encoding,
            &self.pdf_config,
            &self.office_config,
            &self.ocr_config,
            eff_as_xml,
            eff_extract_embedded,
        )
    }

    /// Assembles the request that extracts the file at a path to a string of at most
    /// the stored maximum length.
    pub fn extract_file_to_string<'a>(&'a self, file_path: &'a str) -> (request: ExtractionRequest<
        'a,
    >)
        ensures
            request@ == self@.string_request(
                Operation::ParseFileToString,
                ArgumentView::Text(file_path@),
                None,
                None,
                None,
            ),
            request@.well_typed(),
    {
        parse_file_to_string(
            file_path,
            self.extract_string_max_length,
            &self.pdf_config,
            &self.office_config,
            &self.ocr_config,
            self.xml_output,
            self.extract_embedded,
        )
    }

    /// Assembles the request that extracts the file at a path to a string, with
    /// overrides for the maximum length, for XML output and for embedded
    /// documents. An override that is `None` falls back to the stored
    /// default.
    pub fn extract_file_to_string_opt<'a>(
        &'a self,
        file_path: &'a str,
        max_length: Option<i32>,
        as_xml: Option<bool>,
        extract_embedded: Option<bool>,
    ) -> (request: ExtractionRequest<'a>)
        ensures
            request@ == self@.string_request(
                Operation::ParseFileToString,
                ArgumentView::Text(file_path@),
                max_length,
                as_xml,
                extract_embedded,
            ),
            request@.well_typed(),
    {
        let eff_max_length = merge(max_length, self.extract_string_max_length);
        let eff_as_xml = merge(as_xml, self.xml_output);
        let eff_extract_embedded = merge(extract_embedded, self.extract_embedded);
        parse_file_to_string(
            file_path,
            eff_max_length,
            &self.pdf_config,
            &self.office_config,
            &self.ocr_config,
            eff_as_xml,
            eff_extract_embedded,
        )
    }

    /// Assembles the request that extracts a buffer of bytes to a string of at most
    /// the stored maximum length.
    pub fn extract_bytes_to_string<'a>(&'a self, buffer: &'a [u8]) -> (request: ExtractionRequest<
        'a,
    >)
        ensures
            request@ == self@.string_request(
                Operation::ParseBytesToString,
                ArgumentView::Bytes(buffer@),
                None,
                None,
                None,
            ),
            request@.well_typed(),
    {
        parse_bytes_to_string(
            buffer,
            self.extract_string_max_length,
            &self.pdf_config,
            &self.office_config,
            &self.ocr_config,
            self.xml_output,
            self.extract_embedded,
        )
    }

    /// Assembles the request that extracts a buffer of bytes to a string, with
    /// overrides for the maximum length, for XML output and for embedded
    /// documents. An override that is `None` falls back to the stored
    /// default.
    pub fn extract_bytes_to_string_opt<'a>(
        &'a self,
        buffer: &'a [u8],
        max_length: Option<i32>,
        as_xml: Option<bool>,
        extract_embedded: Option<bool>,
    ) -> (request: ExtractionRequest<'a>)
        ensures
            request@ == self@.string_request(
                Operation::ParseBytesToString,
                ArgumentView::Bytes(buffer@),
                max_length,
                as_xml,
                extract_embedded,
            ),
            request@.well_typed(),
    {
        let eff_max_length = merge(max_length, self.extract_string_max_length);
        let eff_as_xml = merge(as_xml, self.xml_output);
        let eff_extract_embedded = merge(extract_embedded, self.extract_embedded);
        parse_bytes_to_string(
            buffer,
            eff_max_length,
            &self.pdf_config,
            &self.office_config,
            &self.ocr_config,
            eff_as_xml,
            eff_extract_embedded,
        )
    }

    /// Assembles the request that extracts the document at a URL to a string of at most
    /// the stored maximum length.
    pub fn extract_url_to_string<'a>(&'a self, url: &'a str) -> (request: ExtractionRequest<
        'a,
    >)
        ensures
            request@ == self@.string_request(
                Operation::ParseUrlToString,
                ArgumentView::Text(url@),
                None,
                None,
                None,
            ),
            request@.well_typed(),
    {
        parse_url_to_string(
            url,
            self.extract_string_max_length,
            &self.pdf_config,
            &self.office_config,
            &self.ocr_config,
            self.xml_output,
            self.extract_embedded,
        )
    }

    /// Assembles the request that extracts the document at a URL to a string, with
    /// overrides for the maximum length, for XML output and for embedded
    /// documents. An override that is `None` falls back to the stored
    /// default.
    pub fn extract_url_to_string_opt<'a>(
        &'a self,
        url: &'a str,
        max_length: Option<i32>,
        as_xml: Option<bool>,
        extract_embedded: Option<bool>,
    ) -> (request: ExtractionRequest<'a>)
        ensures
            request@ == self@.string_request(
                Operation::ParseUrlToString,
                ArgumentView::Text(url@),
                max_length,
                as_xml,
                extract_embedded,
            ),
            request@.well_typed(),
    {
        let eff_max_length = merge(max_length, self.extract_string_max_length);
        let eff_as_xml = merge(as_xml, self.xml_output);
        let eff_extract_embedded = merge(extract_embedded, self.extract_embedded);
        parse_url_to_string(
            url,
            eff_max_length,
            &self.pdf_config,
            &self.office_config,
            &self.ocr_config,
            eff_as_xml,
            eff_extract_embedded,
        )
    }

    /// Assembles the request that extracts the file at a path together with every
    /// document embedded in it. The result lists the container first and
    /// then the embedded documents; the stored maximum length applies to
    /// each text.
    pub fn extract_file_recursive<'a>(&'a self, file_path: &'a str) -> (request: ExtractionRequest<
        'a,
    >)
        ensures
            request@ == self@.recursive_request(
                Operation::ParseFileRecursive,
                ArgumentView::Text(file_path@),
                None,
                None,
            ),
            request@.well_typed(),
    {
        parse_file_recursive(
            file_path,
            self.extract_string_max_length,
            &self.pdf_config,
            &self.office_config,
            &self.ocr_config,
            self.xml_output,
        )
    }

    /// Assembles the request that extracts the file at a path together with every
    /// document embedded in it, with overrides for the maximum length and
    /// for XML output. An override that is `None` falls back to the stored
    /// default.
    pub fn extract_file_recursive_opt<'a>(
        &'a self,
        file_path: &'a str,
        max_length: Option<i32>,
        as_xml: Option<bool>,
    ) -> (request: ExtractionRequest<'a>)
        ensures
            request@ == self@.recursive_request(
                Operation::ParseFileRecursive,
                ArgumentView::Text(file_path@),
                max_length,
                as_xml,
            ),
            request@.well_typed(),
    {
        let eff_max_length = merge(max_length, self.extract_string_max_length);
        let eff_as_xml = merge(as_xml, self.xml_output);
        parse_file_recursive(
            file_path,
            eff_max_length,
            &self.pdf_config,
            &self.office_config,
            &self.ocr_config,
            eff_as_xml,
        )
    }

    /// Assembles the request that extracts a buffer of bytes together with every
    /// document embedded in it. The result lists the container first and
    /// then the embedded documents; the stored maximum length applies to
    /// each text.
    pub fn extract_bytes_recursive<'a>(&'a self, buffer: &'a [u8]) -> (request: ExtractionRequest<
        'a,
    >)
        ensures
            request@ == self@.recursive_request(
                Operation::ParseBytesRecursive,
                ArgumentView::Bytes(buffer@),
                None,
                None,
            ),
            request@.well_typed(),
    {
        parse_bytes_recursive(
            buffer,
            self.extract_string_max_length,
            &self.pdf_config,
            &self.office_config,
            &self.ocr_config,
            self.xml_output,
        )
    }

    /// Assembles the request that extracts a buffer of bytes together with every
    /// document embedded in it, with overrides for the maximum length and
    /// for XML output. An override that is `None` falls back to the stored
    /// default.
    pub fn extract_bytes_recursive_opt<'a>(
        &'a self,
        buffer: &'a [u8],
        max_length: Option<i32>,
        as_xml: Option<bool>,
    ) -> (request: ExtractionRequest<'a>)
        ensures
            request@ == self@.recursive_request(
                Operation::ParseBytesRecursive,
                ArgumentView::Bytes(buffer@),
                max_length,
                as_xml,
            ),
            request@.well_typed(),
    {
        let eff_max_length = merge(max_length, self.extract_string_max_length);
        let eff_as_xml = merge(as_xml, self.xml_output);
        parse_bytes_recursive(
            buffer,
            eff_max_length,
            &self.pdf_config,
            &self.office_config,
            &self.ocr_config,
            eff_as_xml,
        )
    }

    /// Assembles the request that extracts the document at a URL together with every
    /// document embedded in it. The result lists the container first and
    /// then the embedded documents; the stored maximum length applies to
    /// each text.
    pub fn extract_url_recursive<'a>(&'a self, url: &'a str) -> (request: ExtractionRequest<
        'a,
    >)
        ensures
            request@ == self@.recursive_request(
                Operation::ParseUrlRecursive,
                ArgumentView::Text(url@),
                None,
                None,
            ),
            request@.well_typed(),
    {
        parse_url_recursive(
            url,
            self.extract_string_max_length,
            &self.pdf_config,
            &self.office_config,
            &self.ocr_config,
            self.xml_output,
        )
    }

    /// Assembles the request that extracts the document at a URL together with every
    /// document embedded in it, with overrides for the maximum length and
    /// for XML output. An override that is `None` falls back to the stored
    /// default.
    pub fn extract_url_recursive_opt<'a>(
        &'a self,
        url: &'a str,
        max_length: Option<i32>,
        as_xml: Option<bool>,
    ) -> (request: ExtractionRequest<'a>)
        ensures
            request@ == self@.recursive_request(
                Operation::ParseUrlRecursive,
                ArgumentView::Text(url@),
                max_length,
                as_xml,
            ),
            request@.well_typed(),
    {
        let eff_max_length = merge(max_length, self.extract_string_max_length);
        let eff_as_xml = merge(as_xml, self.xml_output);
        parse_url_recursive(
            url,
            eff_max_length,
            &self.pdf_config,
            &self.office_config,
            &self.ocr_config,
            eff_as_xml,
        )
    }
}

/// An override decides only the field it names: the request of a call with
/// overrides is the request that the same call sends, with the stored
/// defaults, on an extractor in which those fields were set to the
/// overriding values. The extractor that was called is not changed by it.
pub proof fn overrides_act_as_setters(
    extractor: ExtractorView,
    operation: Operation,
    data_source: ArgumentView,
    max_length: Option<i32>,
    encoding: Option<CharSet>,
    as_xml: Option<bool>,
    extract_embedded: Option<bool>,
)
    ensures
        ({
            let specialised = ExtractorView {
                extract_string_max_length: effective(max_length, extractor.extract_string_max_length),
                encoding: effective(encoding, extractor.encoding),
                xml_output: effective(as_xml, extractor.xml_output),
                extract_embedded: effective(extract_embedded, extractor.extract_embedded),
                ..extractor
            };
            &&& extractor.stream_request(operation, data_source, encoding, as_xml, extract_embedded)
                == specialised.stream_request(operation, data_source, None, None, None)
            &&& extractor.string_request(
                operation,
                data_source,
                max_length,
                as_xml,
                extract_embedded,
            ) == specialised.string_request(operation, data_source, None, None, None)
            &&& extractor.recursive_request(operation, data_source, max_length, as_xml)
                == specialised.recursive_request(operation, data_source, None, None)
        }),
{
}

/// An extraction to a stream and an extraction to a string of the same
/// source through the same extractor, with the same overrides for XML
/// output and embedded documents, ask the engine for the same thing: their
/// requests differ only in the second argument, which is the name of the
/// encoding for the one and the maximum length for the other.
pub proof fn stream_and_string_requests_agree(
    extractor: ExtractorView,
    stream_operation: Operation,
    string_operation: Operation,
    data_source: ArgumentView,
    encoding: Option<CharSet>,
    max_length: Option<i32>,
    as_xml: Option<bool>,
    extract_embedded: Option<bool>,
)
    ensures
        ({
            let stream = extractor.stream_request(
                stream_operation,
                data_source,
                encoding,
                as_xml,
                extract_embedded,
            ).arguments;
            let string = extractor.string_request(
                string_operation,
                data_source,
                max_length,
                as_xml,
                extract_embedded,
            ).arguments;
            &&& stream.len() == string.len()
            &&& forall|i: int| 0 <= i < stream.len() && i != 1 ==> stream[i] == string[i]
            &&& stream[1] == ArgumentView::Text(effective(encoding, extractor.encoding).spec_name())
            &&& string[1] == ArgumentView::Int(
                effective(max_length, extractor.extract_string_max_length),
            )
        }),
{
}

/// With every override absent, a call with overrides sends what the call
/// with the stored defaults sends; with an override present, its value is
/// what is sent.
pub proof fn absent_override_falls_back<T>(overriding: Option<T>, default: T)
    ensures
        overriding is None ==> effective(overriding, default) == default,
        overriding is Some ==> effective(overriding, default) == overriding->0,
{
}

} // verus!

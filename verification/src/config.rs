//! Parser configuration records.
//!
//! Each record is a plain value with its own defaults. A record is never
//! changed in place: every setter takes the record and returns the changed
//! one, so a record can be shared and reused across calls. On the remote side
//! a record becomes an object whose named fields are set one by one; the
//! list of those assignments is computed here.

use vstd::prelude::*;
use crate::marshal::{assignment_views, FieldAssignment, FieldAssignmentView, FieldValue, FieldValueView};

verus! {

/// When the PDF parser runs OCR on a page.
#[derive(Debug, Clone, Copy, PartialEq, Eq, Hash, Structural)]
#[allow(non_camel_case_types)]
pub enum PdfOcrStrategy {
    NO_OCR,
    OCR_ONLY,
    OCR_AND_TEXT_EXTRACTION,
    AUTO,
}

impl Default for PdfOcrStrategy {
    fn default() -> (strategy: Self)
        ensures
            strategy == PdfOcrStrategy::AUTO,
    {
        PdfOcrStrategy::AUTO
    }
}

impl PdfOcrStrategy {
    /// The name under which the strategy is handed to the engine.
    pub open spec fn spec_name(self) -> Seq<char> {
        match self {
            PdfOcrStrategy::NO_OCR => "NO_OCR"@,
            PdfOcrStrategy::OCR_ONLY => "OCR_ONLY"@,
            PdfOcrStrategy::OCR_AND_TEXT_EXTRACTION => "OCR_AND_TEXT_EXTRACTION"@,
            PdfOcrStrategy::AUTO => "AUTO"@,
        }
    }

    /// Returns the strategy's name.
    pub fn name(&self) -> (name: &'static str)
        ensures
            name@ == self.spec_name(),
    {
        match self {
            PdfOcrStrategy::NO_OCR => "NO_OCR",
            PdfOcrStrategy::OCR_ONLY => "OCR_ONLY",
            PdfOcrStrategy::OCR_AND_TEXT_EXTRACTION => "OCR_AND_TEXT_EXTRACTION",
            PdfOcrStrategy::AUTO => "AUTO",
        }
    }

    /// Returns the strategy's name as an owned string.
    pub fn to_string(&self) -> (name: String)
        ensures
            name@ == self.spec_name(),
    {
        self.name().to_owned()
    }

    /// Finds the strategy with the given name; names are case-sensitive.
    pub fn from_name(name: &str) -> (found: Option<PdfOcrStrategy>)
        ensures
            match found {
                Some(strategy) => strategy.spec_name() == name@,
                None => forall|strategy: PdfOcrStrategy| strategy.spec_name() != name@,
            },
    {
        let given = name.to_owned();
        if given == PdfOcrStrategy::NO_OCR.to_string() {
            Some(PdfOcrStrategy::NO_OCR)
        } else if given == PdfOcrStrategy::OCR_ONLY.to_string() {
            Some(PdfOcrStrategy::OCR_ONLY)
        } else if given == PdfOcrStrategy::OCR_AND_TEXT_EXTRACTION.to_string() {
            Some(PdfOcrStrategy::OCR_AND_TEXT_EXTRACTION)
        } else if given == PdfOcrStrategy::AUTO.to_string() {
            Some(PdfOcrStrategy::AUTO)
        } else {
            None
        }
    }
}

/// Options of the PDF parser.
#[derive(Debug, Clone, Copy, PartialEq, Eq, Hash, Structural)]
pub struct PdfParserConfig {
    pub ocr_strategy: PdfOcrStrategy,
    pub extract_inline_images: bool,
    pub extract_unique_inline_images_only: bool,
    pub extract_marked_content: bool,
    pub extract_annotation_text: bool,
}

impl Default for PdfParserConfig {
    fn default() -> (config: Self)
        ensures
            config == PdfParserConfig::spec_default(),
    {
        PdfParserConfig {
            ocr_strategy: PdfOcrStrategy::AUTO,
            extract_inline_images: false,
            extract_unique_inline_images_only: false,
            extract_marked_content: false,
            extract_annotation_text: true,
        }
    }
}

impl PdfParserConfig {
    /// The default options: OCR where the engine sees fit, no inline images,
    /// no marked content, annotation text included.
    pub open spec fn spec_default() -> PdfParserConfig {
        PdfParserConfig {
            ocr_strategy: PdfOcrStrategy::AUTO,
            extract_inline_images: false,
            extract_unique_inline_images_only: false,
            extract_marked_content: false,
            extract_annotation_text: true,
        }
    }

    /// Creates the default options.
    pub fn new() -> (config: Self)
        ensures
            config == PdfParserConfig::spec_default(),
    {
        PdfParserConfig::default()
    }

    /// Returns the options with the OCR strategy changed.
    pub fn set_ocr_strategy(self, ocr_strategy: PdfOcrStrategy) -> (config: Self)
        ensures
            config == (PdfParserConfig { ocr_strategy, ..self }),
    {
        PdfParserConfig { ocr_strategy, ..self }
    }

    /// Returns the options with the extraction of inline images switched.
    pub fn set_extract_inline_images(self, extract_inline_images: bool) -> (config: Self)
        ensures
            config == (PdfParserConfig { extract_inline_images, ..self }),
    {
        PdfParserConfig { extract_inline_images, ..self }
    }

    /// Returns the options with the extraction of unique inline images only
    /// switched.
    pub fn set_extract_unique_inline_images_only(
        self,
        extract_unique_inline_images_only: bool,
    ) -> (config: Self)
        ensures
            config == (PdfParserConfig { extract_unique_inline_images_only, ..self }),
    {
        PdfParserConfig { extract_unique_inline_images_only, ..self }
    }

    /// Returns the options with the extraction of marked content switched.
    pub fn set_extract_marked_content(self, extract_marked_content: bool) -> (config: Self)
        ensures
            config == (PdfParserConfig { extract_marked_content, ..self }),
    {
        PdfParserConfig { extract_marked_content, ..self }
    }

    /// Returns the options with the extraction of annotation text switched.
    pub fn set_extract_annotation_text(self, extract_annotation_text: bool) -> (config: Self)
        ensures
            config == (PdfParserConfig { extract_annotation_text, ..self }),
    {
        PdfParserConfig { extract_annotation_text, ..self }
    }

    /// The assignments that populate the remote object, in order.
    pub open spec fn spec_assignments(self) -> Seq<FieldAssignmentView> {
        seq![
            FieldAssignmentView {
                setter: "setOcrStrategy"@,
                value: FieldValueView::Text(self.ocr_strategy.spec_name()),
            },
            FieldAssignmentView {
                setter: "setExtractInlineImages"@,
                value: FieldValueView::Bool(self.extract_inline_images),
            },
            FieldAssignmentView {
                setter: "setExtractUniqueInlineImagesOnly"@,
                value: FieldValueView::Bool(self.extract_unique_inline_images_only),
            },
            FieldAssignmentView {
                setter: "setExtractMarkedContent"@,
                value: FieldValueView::Bool(self.extract_marked_content),
            },
            FieldAssignmentView {
                setter: "setExtractAnnotationText"@,
                value: FieldValueView::Bool(self.extract_annotation_text),
            },
        ]
    }

    /// Returns the assignments that populate the remote object, in order.
    pub fn assignments(&self) -> (assignments: Vec<FieldAssignment>)
        ensures
            assignment_views(assignments@) == self.spec_assignments(),
    {
        let mut assignments: Vec<FieldAssignment> = Vec::new();
        assignments.push(
            FieldAssignment {
                setter: "setOcrStrategy",
                value: FieldValue::Text(self.ocr_strategy.to_string()),
            },
        );
        assignments.push(
            FieldAssignment {
                setter: "setExtractInlineImages",
                value: FieldValue::Bool(self.extract_inline_images),
            },
        );
        assignments.push(
            FieldAssignment {
                setter: "setExtractUniqueInlineImagesOnly",
                value: FieldValue::Bool(self.extract_unique_inline_images_only),
            },
        );
        assignments.push(
            FieldAssignment {
                setter: "setExtractMarkedContent",
                value: FieldValue::Bool(self.extract_marked_content),
            },
        );
        assignments.push(
            FieldAssignment {
                setter: "setExtractAnnotationText",
                value: FieldValue::Bool(self.extract_annotation_text),
            },
        );
        assignments
    }
}

/// Options of the Office parser.
#[derive(Debug, Clone, Copy, PartialEq, Eq, Hash, Structural)]
pub struct OfficeParserConfig {
    pub extract_macros: bool,
    pub include_deleted_content: bool,
    pub include_move_from_content: bool,
    pub include_shape_based_content: bool,
}

impl Default for OfficeParserConfig {
    fn default() -> (config: Self)
        ensures
            config == OfficeParserConfig::spec_default(),
    {
        OfficeParserConfig {
            extract_macros: false,
            include_deleted_content: false,
            include_move_from_content: false,
            include_shape_based_content: true,
        }
    }
}

impl OfficeParserConfig {
    /// The default options: no macros, no deleted or moved content, content
    /// of shapes included.
    pub open spec fn spec_default() -> OfficeParserConfig {
        OfficeParserConfig {
            extract_macros: false,
            include_deleted_content: false,
            include_move_from_content: false,
            include_shape_based_content: true,
        }
    }

    /// Creates the default options.
    pub fn new() -> (config: Self)
        ensures
            config == OfficeParserConfig::spec_default(),
    {
        OfficeParserConfig::default()
    }

    /// Returns the options with the extraction of macros switched.
    pub fn set_extract_macros(self, extract_macros: bool) -> (config: Self)
        ensures
            config == (OfficeParserConfig { extract_macros, ..self }),
    {
        OfficeParserConfig { extract_macros, ..self }
    }

    /// Returns the options with the inclusion of deleted content switched.
    pub fn set_include_deleted_content(self, include_deleted_content: bool) -> (config: Self)
        ensures
            config == (OfficeParserConfig { include_deleted_content, ..self }),
    {
        OfficeParserConfig { include_deleted_content, ..self }
    }

    /// Returns the options with the inclusion of moved-from content switched.
    pub fn set_include_move_from_content(self, include_move_from_content: bool) -> (config: Self)
        ensures
            config == (OfficeParserConfig { include_move_from_content, ..self }),
    {
        OfficeParserConfig { include_move_from_content, ..self }
    }

    /// Returns the options with the inclusion of shape-based content
    /// switched.
    pub fn set_include_shape_based_content(self, include_shape_based_content: bool) -> (config:
        Self)
        ensures
            config == (OfficeParserConfig { include_shape_based_content, ..self }),
    {
        OfficeParserConfig { include_shape_based_content, ..self }
    }

    /// The assignments that populate the remote object, in order.
    pub open spec fn spec_assignments(self) -> Seq<FieldAssignmentView> {
        seq![
            FieldAssignmentView {
                setter: "setExtractMacros"@,
                value: FieldValueView::Bool(self.extract_macros),
            },
            FieldAssignmentView {
                setter: "setIncludeDeletedContent"@,
                value: FieldValueView::Bool(self.include_deleted_content),
            },
            FieldAssignmentView {
                setter: "setIncludeMoveFromContent"@,
                value: FieldValueView::Bool(self.include_move_from_content),
            },
            FieldAssignmentView {
                setter: "setIncludeShapeBasedContent"@,
                value: FieldValueView::Bool(self.include_shape_based_content),
            },
        ]
    }

    /// Returns the assignments that populate the remote object, in order.
    pub fn assignments(&self) -> (assignments: Vec<FieldAssignment>)
        ensures
            assignment_views(assignments@) == self.spec_assignments(),
    {
        let mut assignments: Vec<FieldAssignment> = Vec::new();
        assignments.push(
            FieldAssignment {
                setter: "setExtractMacros",
                value: FieldValue::Bool(self.extract_macros),
            },
        );
        assignments.push(
            FieldAssignment {
                setter: "setIncludeDeletedContent",
                value: FieldValue::Bool(self.include_deleted_content),
            },
        );
        assignments.push(
            FieldAssignment {
                setter: "setIncludeMoveFromContent",
                value: FieldValue::Bool(self.include_move_from_content),
            },
        );
        assignments.push(
            FieldAssignment {
                setter: "setIncludeShapeBasedContent",
                value: FieldValue::Bool(self.include_shape_based_content),
            },
        );
        assignments
    }
}

/// Options of the OCR pass.
#[derive(Debug, Clone, PartialEq, Eq, Hash)]
pub struct TesseractOcrConfig {
    pub density: i32,
    pub depth: i32,
    pub timeout_seconds: i32,
    pub enable_image_preprocessing: bool,
    pub apply_rotation: bool,
    pub language: String,
}

/// The mathematical value of the OCR options.
pub struct TesseractOcrConfigView {
    pub density: i32,
    pub depth: i32,
    pub timeout_seconds: i32,
    pub enable_image_preprocessing: bool,
    pub apply_rotation: bool,
    pub language: Seq<char>,
}

impl View for TesseractOcrConfig {
    type V = TesseractOcrConfigView;

    open spec fn view(&self) -> TesseractOcrConfigView {
        TesseractOcrConfigView {
            density: self.density,
            depth: self.depth,
            timeout_seconds: self.timeout_seconds,
            enable_image_preprocessing: self.enable_image_preprocessing,
            apply_rotation: self.apply_rotation,
            language: self.language@,
        }
    }
}

impl TesseractOcrConfigView {
    /// The default options: 300 dpi, depth 4, a timeout of 130 seconds, no
    /// preprocessing, no rotation, English.
    pub open spec fn spec_default() -> TesseractOcrConfigView {
        TesseractOcrConfigView {
            density: 300,
            depth: 4,
            timeout_seconds: 130,
            enable_image_preprocessing: false,
            apply_rotation: false,
            language: "eng"@,
        }
    }

    /// The assignments that populate the remote object, in order.
    pub open spec fn spec_assignments(self) -> Seq<FieldAssignmentView> {
        seq![
            FieldAssignmentView { setter: "setDensity"@, value: FieldValueView::Int(self.density) },
            FieldAssignmentView { setter: "setDepth"@, value: FieldValueView::Int(self.depth) },
            FieldAssignmentView {
                setter: "setTimeoutSeconds"@,
                value: FieldValueView::Int(self.timeout_seconds),
            },
            FieldAssignmentView {
                setter: "setEnableImagePreprocessing"@,
                value: FieldValueView::Bool(self.enable_image_preprocessing),
            },
            FieldAssignmentView {
                setter: "setApplyRotation"@,
                value: FieldValueView::Bool(self.apply_rotation),
            },
            FieldAssignmentView {
                setter: "setLanguage"@,
                value: FieldValueView::Text(self.language),
            },
        ]
    }
}

impl Default for TesseractOcrConfig {
    fn default() -> (config: Self)
        ensures
            config@ == TesseractOcrConfigView::spec_default(),
    {
        TesseractOcrConfig {
            density: 300,
            depth: 4,
            timeout_seconds: 130,
            enable_image_preprocessing: false,
            apply_rotation: false,
            language: "eng".to_owned(),
        }
    }
}

impl TesseractOcrConfig {
    /// Creates the default options.
    pub fn new() -> (config: Self)
        ensures
            config@ == TesseractOcrConfigView::spec_default(),
    {
        TesseractOcrConfig::default()
    }

    /// Returns the options with the image density changed.
    pub fn set_density(self, density: i32) -> (config: Self)
        ensures
            config@ == (TesseractOcrConfigView { density, ..self@ }),
    {
        TesseractOcrConfig { density, ..self }
    }

    /// Returns the options with the colour depth changed.
    pub fn set_depth(self, depth: i32) -> (config: Self)
        ensures
            config@ == (TesseractOcrConfigView { depth, ..self@ }),
    {
        TesseractOcrConfig { depth, ..self }
    }

    /// Returns the options with the timeout changed.
    pub fn set_timeout_seconds(self, timeout_seconds: i32) -> (config: Self)
        ensures
            config@ == (TesseractOcrConfigView { timeout_seconds, ..self@ }),
    {
        TesseractOcrConfig { timeout_seconds, ..self }
    }

    /// Returns the options with image preprocessing switched.
    pub fn set_enable_image_preprocessing(self, enable_image_preprocessing: bool) -> (config: Self)
        ensures
            config@ == (TesseractOcrConfigView { enable_image_preprocessing, ..self@ }),
    {
        TesseractOcrConfig { enable_image_preprocessing, ..self }
    }

    /// Returns the options with rotation switched.
    pub fn set_apply_rotation(self, apply_rotation: bool) -> (config: Self)
        ensures
            config@ == (TesseractOcrConfigView { apply_rotation, ..self@ }),
    {
        TesseractOcrConfig { apply_rotation, ..self }
    }

    /// Returns the options with the language changed.
    pub fn set_language(self, language: &str) -> (config: Self)
        ensures
            config@ == (TesseractOcrConfigView { language: language@, ..self@ }),
    {
        TesseractOcrConfig { language: language.to_owned(), ..self }
    }

    /// Returns the assignments that populate the remote object, in order.
    pub fn assignments(&self) -> (assignments: Vec<FieldAssignment>)
        ensures
            assignment_views(assignments@) == self@.spec_assignments(),
    {
        let mut assignments: Vec<FieldAssignment> = Vec::new();
        assignments.push(FieldAssignment { setter: "setDensity", value: FieldValue::Int(self.density) });
        assignments.push(FieldAssignment { setter: "setDepth", value: FieldValue::Int(self.depth) });
        assignments.push(
            FieldAssignment {
                setter: "setTimeoutSeconds",
                value: FieldValue::Int(self.timeout_seconds),
            },
        );
        assignments.push(
            FieldAssignment {
                setter: "setEnableImagePreprocessing",
                value: FieldValue::Bool(self.enable_image_preprocessing),
            },
        );
        assignments.push(
            FieldAssignment {
                setter: "setApplyRotation",
                value: FieldValue::Bool(self.apply_rotation),
            },
        );
        assignments.push(
            FieldAssignment {
                setter: "setLanguage",
                value: FieldValue::Text(self.language.clone()),
            },
        );
        assignments
    }
}

} // verus!

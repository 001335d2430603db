//! How values are named and typed when they cross into the embedded runtime.
//!
//! Every remote operation is identified by a name and a signature. The
//! signature is not written down by hand: it is derived from the types of
//! the operation's parameters and of its result, so that a signature always
//! agrees with the argument list it is sent with.

use vstd::prelude::*;
use vstd::string::StringExecFns;

verus! {

/// The types of the values that cross the boundary, as the runtime knows
/// them.
#[derive(Debug, Clone, Copy, PartialEq, Eq, Hash, Structural)]
pub enum RemoteType {
    /// A string object.
    Text,
    /// A view over a buffer of bytes.
    ByteBuffer,
    /// A 32-bit integer.
    Int,
    /// A truth value.
    Bool,
    /// No value; the result type of a setter.
    Void,
    /// The options of the PDF parser.
    PdfParserConfig,
    /// The options of the Office parser.
    OfficeParserConfig,
    /// The options of the OCR pass.
    TesseractOcrConfig,
    /// A streamed result: a reader and metadata.
    ReaderResult,
    /// A string result: text and metadata.
    StringResult,
    /// A recursive result: a list of documents.
    RecursiveResult,
}

impl RemoteType {
    /// The remote class of an object type; `None` for a primitive type.
    pub open spec fn spec_class_name(self) -> Option<Seq<char>> {
        match self {
            RemoteType::Text => Some("java/lang/String"@),
            RemoteType::ByteBuffer => Some("java/nio/ByteBuffer"@),
            RemoteType::Int => None,
            RemoteType::Bool => None,
            RemoteType::Void => None,
            RemoteType::PdfParserConfig => Some("org/apache/tika/parser/pdf/PDFParserConfig"@),
            RemoteType::OfficeParserConfig => Some(
                "org/apache/tika/parser/microsoft/OfficeParserConfig"@,
            ),
            RemoteType::TesseractOcrConfig => Some("org/apache/tika/parser/ocr/TesseractOCRConfig"@),
            RemoteType::ReaderResult => Some("ai/yobix/ReaderResult"@),
            RemoteType::StringResult => Some("ai/yobix/StringResult"@),
            RemoteType::RecursiveResult => Some("ai/yobix/RecursiveResult"@),
        }
    }

    /// The type's descriptor inside a signature: a letter for a primitive
    /// type, the class name between `L` and `;` for an object type.
    pub open spec fn spec_descriptor(self) -> Seq<char> {
        match self.spec_class_name() {
            Some(class) => seq!['L'] + class + seq![';'],
            None => match self {
                RemoteType::Int => seq!['I'],
                RemoteType::Bool => seq!['Z'],
                _ => seq!['V'],
            },
        }
    }

    /// Returns the remote class of an object type, `None` for a primitive
    /// type.
    pub fn class_name(&self) -> (class: Option<&'static str>)
        ensures
            match class {
                Some(name) => self.spec_class_name() == Some(name@),
                None => self.spec_class_name() is None,
            },
    {
        match self {
            RemoteType::Text => Some("java/lang/String"),
            RemoteType::ByteBuffer => Some("java/nio/ByteBuffer"),
            RemoteType::Int => None,
            RemoteType::Bool => None,
            RemoteType::Void => None,
            RemoteType::PdfParserConfig => Some("org/apache/tika/parser/pdf/PDFParserConfig"),
            RemoteType::OfficeParserConfig => Some(
                "org/apache/tika/parser/microsoft/OfficeParserConfig",
            ),
            RemoteType::TesseractOcrConfig => Some("org/apache/tika/parser/ocr/TesseractOCRConfig"),
            RemoteType::ReaderResult => Some("ai/yobix/ReaderResult"),
            RemoteType::StringResult => Some("ai/yobix/StringResult"),
            RemoteType::RecursiveResult => Some("ai/yobix/RecursiveResult"),
        }
    }

    /// Returns the type's descriptor.
    pub fn descriptor(&self) -> (descriptor: String)
        ensures
            descriptor@ == self.spec_descriptor(),
    {
        proof {
            reveal_strlit("L");
            reveal_strlit(";");
            reveal_strlit("I");
            reveal_strlit("Z");
            reveal_strlit("V");
        }
        match self.class_name() {
            Some(class) => String::from_str("L").concat(class).concat(";"),
            None => match self {
                RemoteType::Int => String::from_str("I"),
                RemoteType::Bool => String::from_str("Z"),
                _ => String::from_str("V"),
            },
        }
    }
}

/// The descriptors of a list of types, one after another.
pub open spec fn spec_descriptors(types: Seq<RemoteType>) -> Seq<char>
    decreases types.len(),
{
    if types.len() == 0 {
        Seq::empty()
    } else {
        spec_descriptors(types.drop_last()) + types.last().spec_descriptor()
    }
}

/// The signature of a remote method: the descriptors of its parameters
/// between brackets, then the descriptor of its result.
pub open spec fn spec_method_signature(parameters: Seq<RemoteType>, result: RemoteType) -> Seq<
    char,
> {
    seq!['('] + spec_descriptors(parameters) + seq![')'] + result.spec_descriptor()
}

/// Returns the signature of a remote method with the given parameter types
/// and result type.
pub fn method_signature(parameters: &Vec<RemoteType>, result: RemoteType) -> (signature: String)
    ensures
        signature@ == spec_method_signature(parameters@, result),
{
    proof {
        reveal_strlit("(");
        reveal_strlit(")");
    }
    let mut signature = String::from_str("(");
    let mut at: usize = 0;
    assert(signature@ =~= seq!['('] + spec_descriptors(parameters@.take(0)));
    while at < parameters.len()
        invariant
            at <= parameters@.len(),
            signature@ == seq!['('] + spec_descriptors(parameters@.take(at as int)),
        decreases parameters@.len() - at,
    {
        let descriptor = parameters[at].descriptor();
        proof {
            let next = parameters@.take(at + 1);
            assert(next.drop_last() =~= parameters@.take(at as int));
            assert(seq!['('] + spec_descriptors(parameters@.take(at as int)) + descriptor@ =~= seq![
                '(',
            ] + spec_descriptors(next));
        }
        signature.append(descriptor.as_str());
        at += 1;
    }
    assert(parameters@.take(at as int) =~= parameters@);
    signature.append(")");
    let result_descriptor = result.descriptor();
    signature.append(result_descriptor.as_str());
    signature
}

/// Returns the byte that stands for a truth value in a remote call: 1 for
/// true, 0 for false.
pub fn jboolean(flag: bool) -> (byte: u8)
    ensures
        byte == if flag { 1u8 } else { 0u8 },
{
    if flag {
        1
    } else {
        0
    }
}

/// The value of one named field of a remote configuration object.
#[derive(Debug, Clone, PartialEq, Eq)]
pub enum FieldValue {
    Bool(bool),
    Int(i32),
    Text(String),
}

/// The mathematical value of a field value.
pub enum FieldValueView {
    Bool(bool),
    Int(i32),
    Text(Seq<char>),
}

impl View for FieldValue {
    type V = FieldValueView;

    open spec fn view(&self) -> FieldValueView {
        match self {
            FieldValue::Bool(flag) => FieldValueView::Bool(*flag),
            FieldValue::Int(number) => FieldValueView::Int(*number),
            FieldValue::Text(text) => FieldValueView::Text(text@),
        }
    }
}

impl FieldValueView {
    /// The remote type of the value.
    pub open spec fn remote_type(self) -> RemoteType {
        match self {
            FieldValueView::Bool(_) => RemoteType::Bool,
            FieldValueView::Int(_) => RemoteType::Int,
            FieldValueView::Text(_) => RemoteType::Text,
        }
    }
}

impl FieldValue {
    /// Returns the remote type of the value.
    pub fn remote_type(&self) -> (remote: RemoteType)
        ensures
            remote == self@.remote_type(),
    {
        match self {
            FieldValue::Bool(_) => RemoteType::Bool,
            FieldValue::Int(_) => RemoteType::Int,
            FieldValue::Text(_) => RemoteType::Text,
        }
    }
}

/// One step in populating a remote configuration object: the setter to call
/// and the value to hand to it.
#[derive(Debug, Clone, PartialEq, Eq)]
pub struct FieldAssignment {
    /// The name of the setter.
    pub setter: &'static str,
    /// The value to set.
    pub value: FieldValue,
}

/// The mathematical value of a field assignment.
pub struct FieldAssignmentView {
    pub setter: Seq<char>,
    pub value: FieldValueView,
}

impl View for FieldAssignment {
    type V = FieldAssignmentView;

    open spec fn view(&self) -> FieldAssignmentView {
        FieldAssignmentView { setter: self.setter@, value: self.value@ }
    }
}

impl FieldAssignment {
    /// Returns the signature of the setter: it takes the value and returns
    /// nothing.
    pub fn signature(&self) -> (signature: String)
        ensures
            signature@ == spec_method_signature(seq![self@.value.remote_type()], RemoteType::Void),
    {
        let mut parameters: Vec<RemoteType> = Vec::new();
        parameters.push(self.value.remote_type());
        method_signature(&parameters, RemoteType::Void)
    }
}

/// The mathematical values of a list of field assignments.
pub open spec fn assignment_views(assignments: Seq<FieldAssignment>) -> Seq<FieldAssignmentView> {
    Seq::new(assignments.len(), |i: int| assignments[i]@)
}

} // verus!

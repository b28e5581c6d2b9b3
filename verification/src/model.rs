//! The declaration model the synthesizer consumes.
//!
//! A local type declaration is a name plus a body: a struct owning one field
//! set, or an enum owning an ordered sequence of variants, each with its own
//! field set.  The remote counterpart names arrive through an annotation
//! attached to the declaration; both the single-name and the name-list
//! annotation forms normalize to one ordered sequence of names.

use vstd::prelude::*;

use crate::shape::TypeSig;

verus! {

/// One named field: its name and its declared type signature.
#[derive(Debug)]
pub struct NamedField {
    pub name: String,
    pub ty: TypeSig,
}

/// The fields owned by one struct or one enum variant: none (unit), unnamed
/// fields indexed by position, or named fields in declaration order.
#[derive(Debug)]
pub enum FieldSet {
    Unit,
    Positional(Vec<TypeSig>),
    Named(Vec<NamedField>),
}

/// One enum variant: its name and its field set.
#[derive(Debug)]
pub struct VariantDeclaration {
    pub name: String,
    pub fields: FieldSet,
}

/// The body of a declaration.  A union body is representable so that the
/// synthesizer can reject it explicitly; only structs and enums are supported.
#[derive(Debug)]
pub enum DeclarationBody {
    Struct(FieldSet),
    Enum(Vec<VariantDeclaration>),
    Union,
}

/// A whole local type declaration: its name and its body.
#[derive(Debug)]
pub struct TypeDeclaration {
    pub name: String,
    pub body: DeclarationBody,
}

/// The payload of one annotation: a single remote name, a list of remote
/// names, or some other form the synthesizer does not read.
#[derive(Clone, Debug, PartialEq, Eq)]
pub enum AnnotationPayload {
    SingleName(String),
    NameList(Vec<String>),
    Other,
}

/// One annotation attached to the local declaration, already parsed into its
/// name and payload.
#[derive(Clone, Debug, PartialEq, Eq)]
pub struct Annotation {
    pub name: String,
    pub payload: AnnotationPayload,
}

/// The conditions under which synthesis aborts.  Every one is fatal: no
/// partial output is produced.
#[derive(Clone, Copy, Debug, PartialEq, Eq, Structural)]
pub enum SynthError {
    /// The declaration carries no remote-name annotation at all.
    MissingAnnotation,
    /// The annotation is present but names zero remote targets.
    EmptyTargetList,
    /// The declaration is neither a struct nor an enum.
    UnsupportedDeclarationKind,
    /// The declaration is a struct with no fields.
    UnsupportedUnitStruct,
}

} // verus!

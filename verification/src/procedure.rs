//! The expression model the synthesizer produces.
//!
//! A conversion procedure describes, without reference to any host syntax,
//! how one value of the remote type is turned into one value of the local
//! type: a destructuring pattern over the remote value, and a construction
//! expression that rebuilds the local value with one converted expression per
//! field position.

use vstd::prelude::*;

verus! {

/// A reference to one value bound by a destructuring pattern: a named field's
/// own name, or the synthetic binding for the field at a given position.
#[derive(Clone, Debug, PartialEq, Eq)]
pub enum Binding {
    Name(String),
    Index(usize),
}

/// The expression converting one remote field value into the local field
/// value.  Every form converts exactly one binding exactly once.
#[derive(Clone, Debug, PartialEq, Eq)]
pub enum ConvertExpr {
    /// A single element-level conversion of the whole binding.
    Direct(Binding),
    /// Map the element conversion over every item of the binding and
    /// re-collect into the local sequence type.
    MapElements(Binding),
    /// Map a paired key/value conversion over every entry of the binding and
    /// re-collect into the local map type.
    MapEntries(Binding),
    /// Apply the element conversion to the value held by the binding's
    /// single-slot wrapper, if any, keeping the wrapper's discriminant.
    MapInner(Binding),
}

/// The binding a conversion expression converts.
pub open spec fn expr_binding(e: ConvertExpr) -> Binding {
    match e {
        ConvertExpr::Direct(b) => b,
        ConvertExpr::MapElements(b) => b,
        ConvertExpr::MapEntries(b) => b,
        ConvertExpr::MapInner(b) => b,
    }
}

/// One assignment of a construction expression for named fields.
#[derive(Clone, Debug, PartialEq, Eq)]
pub struct NamedAssign {
    pub name: String,
    pub expr: ConvertExpr,
}

/// The pattern destructuring one remote struct body or variant: every named
/// field bound under its own name, every positional field bound under a
/// synthetic index binding, or the bare name for a unit variant.
#[derive(Clone, Debug, PartialEq, Eq)]
pub enum DestructurePattern {
    Named(Vec<String>),
    Positional(Vec<usize>),
    Unit,
}

/// The expression constructing one local struct body or variant from the
/// bindings of the matching destructure pattern.
#[derive(Clone, Debug, PartialEq, Eq)]
pub enum ConstructExpr {
    Named(Vec<NamedAssign>),
    Positional(Vec<ConvertExpr>),
    Unit,
}

/// The conversion of one member: destructure the remote member by the
/// pattern, then rebuild the local member by the construction expression.
#[derive(Clone, Debug, PartialEq, Eq)]
pub struct MemberConversion {
    pub pattern: DestructurePattern,
    pub construct: ConstructExpr,
}

/// One arm of an enum dispatch: the shared variant name, and the conversion
/// of that variant's fields.
#[derive(Clone, Debug, PartialEq, Eq)]
pub struct MatchArm {
    pub variant: String,
    pub conversion: MemberConversion,
}

/// The body of a conversion procedure: one member conversion for a struct, or
/// an exhaustive per-variant dispatch for an enum.
#[derive(Clone, Debug, PartialEq, Eq)]
pub enum ConversionBody {
    Construct(MemberConversion),
    Dispatch(Vec<MatchArm>),
}

/// One finished conversion procedure, turning a value of the remote type into
/// a value of the local type.
#[derive(Clone, Debug, PartialEq, Eq)]
pub struct ConversionProcedure {
    pub local_name: String,
    pub remote_name: String,
    pub body: ConversionBody,
}

} // verus!

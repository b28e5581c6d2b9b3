//! Classification of a field's declared type into its combinator shape.
//!
//! Classification is positional, not recursive: only the outermost identifier
//! of a type signature is inspected, against three small closed identifier
//! sets, in priority order.  Anything unmatched converts directly; the generic
//! arguments of a matched identifier are never re-classified, since the
//! synthesized expression hands them to a single element-level conversion.

use vstd::prelude::*;

verus! {

/// The combinator shape that governs how one field's value is converted.
#[derive(Clone, Copy, Debug, PartialEq, Eq, Structural)]
pub enum TypeShape {
    /// Convert the whole value with a single element-level conversion call.
    Direct,
    /// Map the element conversion over every item and re-collect.
    Sequence,
    /// Map a paired key/value conversion over every entry and re-collect.
    AssociativeMap,
    /// Apply the element conversion under a single-slot wrapper, keeping the
    /// wrapper's own discriminant untouched.
    Monadic,
}

/// The declared type of one field: a head identifier followed by generic
/// arguments, or an anonymous (non-path) signature such as a tuple or
/// reference type.
#[derive(Debug)]
pub enum TypeSig {
    Named { head: String, args: Vec<TypeSig> },
    Anonymous,
}

/// The five built-in sequence-like head identifiers.
pub open spec fn is_sequence_head(head: Seq<char>) -> bool {
    ||| head == "Vec"@
    ||| head == "VecDeque"@
    ||| head == "LinkedList"@
    ||| head == "HashSet"@
    ||| head == "BTreeSet"@
}

/// The two built-in map-like head identifiers.
pub open spec fn is_map_head(head: Seq<char>) -> bool {
    ||| head == "HashMap"@
    ||| head == "BTreeMap"@
}

/// The two built-in monadic head identifiers.
pub open spec fn is_monadic_head(head: Seq<char>) -> bool {
    ||| head == "Option"@
    ||| head == "Result"@
}

/// The shape assigned to a head identifier, in priority order; an identifier
/// in none of the three sets converts directly.
pub open spec fn shape_of_head(head: Seq<char>) -> TypeShape {
    if is_sequence_head(head) {
        TypeShape::Sequence
    } else if is_map_head(head) {
        TypeShape::AssociativeMap
    } else if is_monadic_head(head) {
        TypeShape::Monadic
    } else {
        TypeShape::Direct
    }
}

/// The shape of a whole signature: its head identifier decides alone, and an
/// anonymous signature converts directly.
pub open spec fn spec_classify(sig: TypeSig) -> TypeShape {
    match sig {
        TypeSig::Named { head, args } => shape_of_head(head@),
        TypeSig::Anonymous => TypeShape::Direct,
    }
}

/// True exactly when `s` holds the same characters as `lit`.
pub(crate) fn text_is(s: &String, lit: &str) -> (r: bool)
    ensures
        r == (s@ == lit@),
{
    let l: String = String::from_str(lit);
    *s == l
}

/// Assigns a field's type signature one of the four shapes.  Never fails: an
/// unrecognized head identifier is a valid `Direct` outcome, not an error.
pub fn classify(sig: &TypeSig) -> (shape: TypeShape)
    ensures
        shape == spec_classify(*sig),
{
    match sig {
        TypeSig::Named { head, args: _ } => {
            if text_is(head, "Vec") || text_is(head, "VecDeque") || text_is(head, "LinkedList")
                || text_is(head, "HashSet") || text_is(head, "BTreeSet") {
                TypeShape::Sequence
            } else if text_is(head, "HashMap") || text_is(head, "BTreeMap") {
                TypeShape::AssociativeMap
            } else if text_is(head, "Option") || text_is(head, "Result") {
                TypeShape::Monadic
            } else {
                TypeShape::Direct
            }
        },
        TypeSig::Anonymous => TypeShape::Direct,
    }
}

/// Classification is a pure function of the outermost type identifier: two
/// signatures with the same head classify alike, whatever their generic
/// arguments.
pub proof fn lemma_classification_positional(head: String, args1: Vec<TypeSig>, args2: Vec<TypeSig>)
    ensures
        spec_classify(TypeSig::Named { head, args: args1 })
            == spec_classify(TypeSig::Named { head, args: args2 }),
{
}

} // verus!

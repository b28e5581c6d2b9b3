//! Synthesis of field and member conversions.
//!
//! A field conversion is the expression determined by the field's binding and
//! its classified shape.  A member conversion pairs the destructuring pattern
//! of a whole field set with the construction expression that rebuilds it,
//! one converted expression per field position, in declaration order.

use vstd::prelude::*;

use crate::model::{FieldSet, NamedField};
use crate::procedure::{
    Binding, ConstructExpr, ConvertExpr, DestructurePattern, MemberConversion, NamedAssign,
};
use crate::shape::{classify, spec_classify, TypeShape, TypeSig};

verus! {

/// The conversion expression for one binding of the given shape.
pub open spec fn spec_field_expr(b: Binding, shape: TypeShape) -> ConvertExpr {
    match shape {
        TypeShape::Direct => ConvertExpr::Direct(b),
        TypeShape::Sequence => ConvertExpr::MapElements(b),
        TypeShape::AssociativeMap => ConvertExpr::MapEntries(b),
        TypeShape::Monadic => ConvertExpr::MapInner(b),
    }
}

/// The assignment synthesized for one named field: the binding named after
/// the field, converted by the field's classified shape.
pub open spec fn spec_named_assign(f: NamedField) -> NamedAssign {
    NamedAssign {
        name: f.name,
        expr: spec_field_expr(Binding::Name(f.name), spec_classify(f.ty)),
    }
}

/// The destructure bindings for a named field set: every field bound under
/// its own name, in declaration order.
pub open spec fn spec_named_pattern(fs: Seq<NamedField>) -> Seq<String> {
    fs.map_values(|f: NamedField| f.name)
}

/// The construction assignments for a named field set, in declaration order.
pub open spec fn spec_named_construct(fs: Seq<NamedField>) -> Seq<NamedAssign> {
    fs.map_values(|f: NamedField| spec_named_assign(f))
}

/// The synthetic destructure bindings for a positional field set: one index
/// binding per position.
pub open spec fn spec_positional_pattern(n: nat) -> Seq<usize> {
    Seq::new(n, |i: int| i as usize)
}

/// The construction expressions for a positional field set: the synthetic
/// binding of each position, converted by that position's classified shape.
pub open spec fn spec_positional_construct(ts: Seq<TypeSig>) -> Seq<ConvertExpr> {
    Seq::new(ts.len(), |i: int| spec_field_expr(Binding::Index(i as usize), spec_classify(ts[i])))
}

/// What the member conversion synthesized for a field set must hold: the
/// pattern and construction determined by the field set's kind, with one
/// binding and one converted expression per field.  A unit field set converts
/// as the bare member name, with no bindings and no conversion calls.
pub open spec fn member_matches(fields: FieldSet, m: MemberConversion) -> bool {
    match fields {
        FieldSet::Unit => {
            &&& m.pattern == DestructurePattern::Unit
            &&& m.construct == ConstructExpr::Unit
        },
        FieldSet::Named(fs) => {
            &&& m.pattern matches DestructurePattern::Named(names)
                && names@ == spec_named_pattern(fs@)
            &&& m.construct matches ConstructExpr::Named(assigns)
                && assigns@ == spec_named_construct(fs@)
        },
        FieldSet::Positional(ts) => {
            &&& m.pattern matches DestructurePattern::Positional(idxs)
                && idxs@ == spec_positional_pattern(ts@.len())
            &&& m.construct matches ConstructExpr::Positional(es)
                && es@ == spec_positional_construct(ts@)
        },
    }
}

/// Structural identity of two member conversions, compared position by
/// position through the views of their vectors.
pub open spec fn member_like(a: MemberConversion, b: MemberConversion) -> bool {
    &&& match (a.pattern, b.pattern) {
        (DestructurePattern::Named(x), DestructurePattern::Named(y)) => x@ == y@,
        (DestructurePattern::Positional(x), DestructurePattern::Positional(y)) => x@ == y@,
        (DestructurePattern::Unit, DestructurePattern::Unit) => true,
        _ => false,
    }
    &&& match (a.construct, b.construct) {
        (ConstructExpr::Named(x), ConstructExpr::Named(y)) => x@ == y@,
        (ConstructExpr::Positional(x), ConstructExpr::Positional(y)) => x@ == y@,
        (ConstructExpr::Unit, ConstructExpr::Unit) => true,
        _ => false,
    }
}

/// For a member with k named fields, the synthesized construction enumerates
/// exactly k assignments, the i-th named after the i-th field and converting
/// the binding of that field's own name; every expression form converts its
/// one binding exactly once.
pub proof fn lemma_named_member_shape(fs: Vec<NamedField>, m: MemberConversion)
    requires
        member_matches(FieldSet::Named(fs), m),
    ensures
        m.construct matches ConstructExpr::Named(assigns) && {
            &&& assigns@.len() == fs@.len()
            &&& forall|i: int|
                0 <= i < fs@.len() ==> {
                    &&& (#[trigger] assigns@[i]).name == fs@[i].name
                    &&& crate::procedure::expr_binding(assigns@[i].expr) == Binding::Name(
                        fs@[i].name,
                    )
                }
        },
{
}

/// A member all of whose named fields classify as direct converts by exactly
/// one element-level conversion per field, in declaration order, with no
/// reordering: the round trip is one conversion call per field.
pub proof fn lemma_direct_fields_convert_directly(fs: Vec<NamedField>, m: MemberConversion)
    requires
        member_matches(FieldSet::Named(fs), m),
        forall|i: int|
            0 <= i < fs@.len() ==> spec_classify((#[trigger] fs@[i]).ty) == TypeShape::Direct,
    ensures
        m.construct matches ConstructExpr::Named(assigns) && {
            &&& assigns@.len() == fs@.len()
            &&& forall|i: int|
                0 <= i < fs@.len() ==> #[trigger] assigns@[i] == (NamedAssign {
                    name: fs@[i].name,
                    expr: ConvertExpr::Direct(Binding::Name(fs@[i].name)),
                })
        },
{
}

/// A member all of whose positional fields classify as direct likewise
/// converts by exactly one element-level conversion per position, each
/// converting its own synthetic binding, in position order.
pub proof fn lemma_direct_positions_convert_directly(ts: Vec<TypeSig>, m: MemberConversion)
    requires
        member_matches(FieldSet::Positional(ts), m),
        forall|i: int| 0 <= i < ts@.len() ==> spec_classify(#[trigger] ts@[i]) == TypeShape::Direct,
    ensures
        m.construct matches ConstructExpr::Positional(es) && {
            &&& es@.len() == ts@.len()
            &&& forall|i: int|
                0 <= i < ts@.len() ==> #[trigger] es@[i] == ConvertExpr::Direct(
                    Binding::Index(i as usize),
                )
        },
{
}

/// Produces the expression converting one remote field value, selected by the
/// field's shape alone.
pub fn synthesize_field(binding: Binding, shape: TypeShape) -> (e: ConvertExpr)
    ensures
        e == spec_field_expr(binding, shape),
{
    match shape {
        TypeShape::Direct => ConvertExpr::Direct(binding),
        TypeShape::Sequence => ConvertExpr::MapElements(binding),
        TypeShape::AssociativeMap => ConvertExpr::MapEntries(binding),
        TypeShape::Monadic => ConvertExpr::MapInner(binding),
    }
}

/// Produces the destructure pattern and construction expression converting
/// one struct body or one enum variant.
pub fn synthesize_member(fields: &FieldSet) -> (m: MemberConversion)
    ensures
        member_matches(*fields, m),
{
    match fields {
        FieldSet::Unit => MemberConversion {
            pattern: DestructurePattern::Unit,
            construct: ConstructExpr::Unit,
        },
        FieldSet::Named(fs) => {
            let mut names: Vec<String> = Vec::new();
            let mut assigns: Vec<NamedAssign> = Vec::new();
            let mut i: usize = 0;
            while i < fs.len()
                invariant
                    i <= fs.len(),
                    names@ == spec_named_pattern(fs@.take(i as int)),
                    assigns@ == spec_named_construct(fs@.take(i as int)),
                decreases fs.len() - i,
            {
                let f = &fs[i];
                names.push(f.name.clone());
                let shape = classify(&f.ty);
                let expr = synthesize_field(Binding::Name(f.name.clone()), shape);
                assigns.push(NamedAssign { name: f.name.clone(), expr });
                proof {
                    let prefix = fs@.take(i as int);
                    assert(fs@.take(i + 1 as int) =~= prefix.push(fs@[i as int]));
                    assert(spec_named_pattern(prefix.push(fs@[i as int]))
                        =~= spec_named_pattern(prefix).push(fs@[i as int].name));
                    assert(spec_named_construct(prefix.push(fs@[i as int]))
                        =~= spec_named_construct(prefix).push(spec_named_assign(fs@[i as int])));
                }
                i = i + 1;
            }
            proof {
                assert(fs@.take(fs@.len() as int) =~= fs@);
            }
            MemberConversion {
                pattern: DestructurePattern::Named(names),
                construct: ConstructExpr::Named(assigns),
            }
        },
        FieldSet::Positional(ts) => {
            let mut idxs: Vec<usize> = Vec::new();
            let mut exprs: Vec<ConvertExpr> = Vec::new();
            let mut i: usize = 0;
            while i < ts.len()
                invariant
                    i <= ts.len(),
                    idxs@ == spec_positional_pattern(i as nat),
                    exprs@ == spec_positional_construct(ts@.take(i as int)),
                decreases ts.len() - i,
            {
                idxs.push(i);
                let shape = classify(&ts[i]);
                let expr = synthesize_field(Binding::Index(i), shape);
                exprs.push(expr);
                proof {
                    assert(spec_positional_pattern((i + 1) as nat)
                        =~= spec_positional_pattern(i as nat).push(i));
                    assert(spec_positional_construct(ts@.take(i + 1 as int))
                        =~= spec_positional_construct(ts@.take(i as int)).push(
                            spec_field_expr(Binding::Index(i), spec_classify(ts@[i as int]))));
                }
                i = i + 1;
            }
            proof {
                assert(ts@.take(ts@.len() as int) =~= ts@);
            }
            MemberConversion {
                pattern: DestructurePattern::Positional(idxs),
                construct: ConstructExpr::Positional(exprs),
            }
        },
    }
}

} // verus!

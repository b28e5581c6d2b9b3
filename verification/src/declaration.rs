//! Whole-declaration synthesis and multi-target orchestration.
//!
//! One conversion procedure is synthesized per (local declaration, remote
//! name) pair: a struct converts by a single destructure-then-construct pair,
//! an enum by one exhaustive dispatch arm per variant, matched by the shared
//! variant name in declaration order.  A declaration annotated with several
//! remote names yields one independent procedure per name; any failure aborts
//! the whole expansion.

use vstd::prelude::*;

use crate::model::{
    Annotation, AnnotationPayload, DeclarationBody, FieldSet, SynthError, TypeDeclaration,
};
use crate::procedure::{ConversionBody, ConversionProcedure, MatchArm, MemberConversion};
use crate::shape::text_is;
use crate::synthesis::{member_like, member_matches, synthesize_member};

verus! {

/// The dispatch arms synthesized for an enum: one per variant, in declaration
/// order, each pairing the remote variant's destructure with the local
/// variant's construction under the shared variant name.
pub open spec fn arms_match(vs: Seq<crate::model::VariantDeclaration>, arms: Seq<MatchArm>) -> bool {
    &&& arms.len() == vs.len()
    &&& forall|k: int|
        0 <= k < vs.len() ==> {
            &&& (#[trigger] arms[k]).variant == vs[k].name
            &&& member_matches(vs[k].fields, arms[k].conversion)
        }
}

/// The condition, if any, on which synthesis for a declaration aborts: unit
/// structs and non-struct, non-enum declarations are unsupported.
pub open spec fn declaration_error(local: TypeDeclaration) -> Option<SynthError> {
    match local.body {
        DeclarationBody::Struct(fields) => if (fields matches FieldSet::Unit) {
            Some(SynthError::UnsupportedUnitStruct)
        } else {
            None
        },
        DeclarationBody::Enum(_) => None,
        DeclarationBody::Union => Some(SynthError::UnsupportedDeclarationKind),
    }
}

/// What one synthesized procedure must hold for a declaration and one remote
/// name: it converts that remote type into that local type, by one member
/// conversion for a struct and by a per-variant dispatch for an enum.
pub open spec fn procedure_matches(
    local: TypeDeclaration,
    remote_name: String,
    p: ConversionProcedure,
) -> bool {
    &&& p.local_name == local.name
    &&& p.remote_name == remote_name
    &&& match local.body {
        DeclarationBody::Struct(fields) => p.body matches ConversionBody::Construct(m)
            && member_matches(fields, m),
        DeclarationBody::Enum(vs) => p.body matches ConversionBody::Dispatch(arms)
            && arms_match(vs@, arms@),
        DeclarationBody::Union => false,
    }
}

/// Produces the complete conversion procedure turning one value of the named
/// remote type into one value of the local type.  Returns an error exactly on
/// a unit struct or on a declaration that is neither struct nor enum.
pub fn synthesize_declaration(local: &TypeDeclaration, remote_name: &String) -> (r: Result<
    ConversionProcedure,
    SynthError,
>)
    ensures
        match declaration_error(*local) {
            Some(err) => r matches Err(e) && e == err,
            None => r matches Ok(p) && procedure_matches(*local, *remote_name, p),
        },
{
    match &local.body {
        DeclarationBody::Struct(fields) => {
            if let FieldSet::Unit = fields {
                return Err(SynthError::UnsupportedUnitStruct);
            }
            let member = synthesize_member(fields);
            Ok(ConversionProcedure {
                local_name: local.name.clone(),
                remote_name: remote_name.clone(),
                body: ConversionBody::Construct(member),
            })
        },
        DeclarationBody::Enum(vs) => {
            let mut arms: Vec<MatchArm> = Vec::new();
            let mut i: usize = 0;
            while i < vs.len()
                invariant
                    i <= vs.len(),
                    arms@.len() == i as int,
                    forall|k: int|
                        0 <= k < i as int ==> {
                            &&& (#[trigger] arms@[k]).variant == vs@[k].name
                            &&& member_matches(vs@[k].fields, arms@[k].conversion)
                        },
                decreases vs.len() - i,
            {
                let v = &vs[i];
                let conversion = synthesize_member(&v.fields);
                arms.push(MatchArm { variant: v.name.clone(), conversion });
                i = i + 1;
            }
            Ok(ConversionProcedure {
                local_name: local.name.clone(),
                remote_name: remote_name.clone(),
                body: ConversionBody::Dispatch(arms),
            })
        },
        DeclarationBody::Union => Err(SynthError::UnsupportedDeclarationKind),
    }
}

/// Produces one independent conversion procedure per announced remote name,
/// in announcement order, all against the same local declaration.  An empty
/// name list is fatal, and any single failure aborts the whole run.
pub fn synthesize_all(local: &TypeDeclaration, remote_names: &Vec<String>) -> (r: Result<
    Vec<ConversionProcedure>,
    SynthError,
>)
    ensures
        remote_names@.len() == 0 ==> (r matches Err(e) && e == SynthError::EmptyTargetList),
        remote_names@.len() > 0 ==> match declaration_error(*local) {
            Some(err) => r matches Err(e) && e == err,
            None => r matches Ok(ps) && ps@.len() == remote_names@.len() && forall|k: int|
                0 <= k < remote_names@.len() ==> procedure_matches(
                    *local,
                    remote_names@[k],
                    #[trigger] ps@[k],
                ),
        },
{
    if remote_names.len() == 0 {
        return Err(SynthError::EmptyTargetList);
    }
    let mut out: Vec<ConversionProcedure> = Vec::new();
    let mut i: usize = 0;
    while i < remote_names.len()
        invariant
            i <= remote_names@.len(),
            remote_names@.len() > 0,
            out@.len() == i as int,
            declaration_error(*local) matches Some(err) ==> i == 0,
            forall|k: int|
                0 <= k < i as int ==> procedure_matches(
                    *local,
                    remote_names@[k],
                    #[trigger] out@[k],
                ),
        decreases remote_names@.len() - i,
    {
        match synthesize_declaration(local, &remote_names[i]) {
            Ok(p) => out.push(p),
            Err(e) => {
                return Err(e);
            },
        }
        i = i + 1;
    }
    Ok(out)
}

/// For an enum with v variants, the synthesized procedure dispatches through
/// exactly v match arms, in declaration order, each pairing the remote
/// variant's destructure with the local variant's construction under the
/// shared variant name.
pub proof fn lemma_enum_dispatch_shape(
    name: String,
    vs: Vec<crate::model::VariantDeclaration>,
    remote_name: String,
    p: ConversionProcedure,
)
    requires
        procedure_matches(
            TypeDeclaration { name, body: DeclarationBody::Enum(vs) },
            remote_name,
            p,
        ),
    ensures
        p.body matches ConversionBody::Dispatch(arms) && {
            &&& arms@.len() == vs@.len()
            &&& forall|k: int|
                0 <= k < vs@.len() ==> {
                    &&& (#[trigger] arms@[k]).variant == vs@[k].name
                    &&& member_matches(vs@[k].fields, arms@[k].conversion)
                }
        },
{
}

/// Structural identity of two conversion procedures, compared arm by arm and
/// position by position through the views of their vectors.
pub open spec fn procedure_like(a: ConversionProcedure, b: ConversionProcedure) -> bool {
    &&& a.local_name == b.local_name
    &&& a.remote_name == b.remote_name
    &&& match (a.body, b.body) {
        (ConversionBody::Construct(m1), ConversionBody::Construct(m2)) => member_like(m1, m2),
        (ConversionBody::Dispatch(x), ConversionBody::Dispatch(y)) => {
            &&& x@.len() == y@.len()
            &&& forall|k: int|
                0 <= k < x@.len() ==> {
                    &&& (#[trigger] x@[k]).variant == y@[k].variant
                    &&& member_like(x@[k].conversion, y@[k].conversion)
                }
        },
        _ => false,
    }
}

/// Two member conversions synthesized for the same field set are structurally
/// identical.
pub proof fn lemma_member_deterministic(
    fields: FieldSet,
    m1: MemberConversion,
    m2: MemberConversion,
)
    requires
        member_matches(fields, m1),
        member_matches(fields, m2),
    ensures
        member_like(m1, m2),
{
}

/// Synthesis keeps no hidden state: re-running it on an unchanged declaration
/// and remote name yields a structurally identical procedure, down to the
/// stable positional-binding scheme.
pub proof fn lemma_synthesis_deterministic(
    local: TypeDeclaration,
    remote_name: String,
    p1: ConversionProcedure,
    p2: ConversionProcedure,
)
    requires
        procedure_matches(local, remote_name, p1),
        procedure_matches(local, remote_name, p2),
    ensures
        procedure_like(p1, p2),
{
    match local.body {
        DeclarationBody::Struct(fields) => {
            match (p1.body, p2.body) {
                (ConversionBody::Construct(m1), ConversionBody::Construct(m2)) => {
                    lemma_member_deterministic(fields, m1, m2);
                },
                _ => {},
            }
        },
        DeclarationBody::Enum(vs) => {
            match (p1.body, p2.body) {
                (ConversionBody::Dispatch(x), ConversionBody::Dispatch(y)) => {
                    assert forall|k: int| 0 <= k < x@.len() implies {
                        &&& (#[trigger] x@[k]).variant == y@[k].variant
                        &&& member_like(x@[k].conversion, y@[k].conversion)
                    } by {
                        lemma_member_deterministic(
                            vs@[k].fields,
                            x@[k].conversion,
                            y@[k].conversion,
                        );
                    }
                },
                _ => {},
            }
        },
        DeclarationBody::Union => {},
    }
}

/// The remote names announced by the first remote-name annotation, if one is
/// present with a readable payload: a single name, or a name list, both
/// normalized to one ordered sequence.
pub open spec fn payload_targets(p: AnnotationPayload) -> Option<Seq<String>> {
    match p {
        AnnotationPayload::SingleName(n) => Some(seq![n]),
        AnnotationPayload::NameList(ns) => Some(ns@),
        AnnotationPayload::Other => None,
    }
}

/// Scans the declaration's annotations, front to back, for the first one
/// named `from_remote` whose payload announces remote names.
pub open spec fn spec_remote_targets(annots: Seq<Annotation>) -> Option<Seq<String>>
    decreases annots.len(),
{
    if annots.len() == 0 {
        None
    } else if annots[0].name@ == "from_remote"@ && payload_targets(annots[0].payload) is Some {
        payload_targets(annots[0].payload)
    } else {
        spec_remote_targets(annots.drop_first())
    }
}

/// Normalizes the declaration's annotations to the announced remote names.
/// Fails exactly when no `from_remote` annotation with a readable payload is
/// attached to the declaration.
pub fn remote_targets(annotations: &Vec<Annotation>) -> (r: Result<Vec<String>, SynthError>)
    ensures
        match spec_remote_targets(annotations@) {
            Some(names) => r matches Ok(v) && v@ == names,
            None => r matches Err(e) && e == SynthError::MissingAnnotation,
        },
{
    let mut i: usize = 0;
    proof {
        assert(annotations@.skip(0) =~= annotations@);
    }
    while i < annotations.len()
        invariant
            i <= annotations@.len(),
            spec_remote_targets(annotations@) == spec_remote_targets(
                annotations@.skip(i as int),
            ),
        decreases annotations@.len() - i,
    {
        let a = &annotations[i];
        proof {
            assert(annotations@.skip(i as int)[0] == annotations@[i as int]);
            assert(annotations@.skip(i as int).drop_first() =~= annotations@.skip(i as int + 1));
        }
        if text_is(&a.name, "from_remote") {
            match &a.payload {
                AnnotationPayload::SingleName(name) => {
                    let mut out: Vec<String> = Vec::new();
                    out.push(name.clone());
                    proof {
                        assert(out@ =~= seq![*name]);
                    }
                    return Ok(out);
                },
                AnnotationPayload::NameList(ns) => {
                    let mut out: Vec<String> = Vec::new();
                    let mut j: usize = 0;
                    while j < ns.len()
                        invariant
                            j <= ns@.len(),
                            out@ == ns@.take(j as int),
                        decreases ns@.len() - j,
                    {
                        out.push(ns[j].clone());
                        proof {
                            assert(ns@.take(j as int + 1) =~= ns@.take(j as int).push(
                                ns@[j as int],
                            ));
                        }
                        j = j + 1;
                    }
                    proof {
                        assert(ns@.take(ns@.len() as int) =~= ns@);
                    }
                    return Ok(out);
                },
                AnnotationPayload::Other => {},
            }
        }
        i = i + 1;
    }
    Err(SynthError::MissingAnnotation)
}

/// The complete expansion for one annotated local declaration: reads the
/// announced remote names and synthesizes one conversion procedure per name.
/// Fails exactly on a missing or empty annotation, on a unit struct, or on a
/// declaration that is neither struct nor enum.
pub fn expand_declaration(local: &TypeDeclaration, annotations: &Vec<Annotation>) -> (r: Result<
    Vec<ConversionProcedure>,
    SynthError,
>)
    ensures
        match spec_remote_targets(annotations@) {
            None => r matches Err(e) && e == SynthError::MissingAnnotation,
            Some(names) => if names.len() == 0 {
                r matches Err(e) && e == SynthError::EmptyTargetList
            } else {
                match declaration_error(*local) {
                    Some(err) => r matches Err(e) && e == err,
                    None => r matches Ok(ps) && ps@.len() == names.len() && forall|k: int|
                        0 <= k < names.len() ==> procedure_matches(
                            *local,
                            names[k],
                            #[trigger] ps@[k],
                        ),
                }
            },
        },
{
    let names = match remote_targets(annotations) {
        Ok(names) => names,
        Err(e) => {
            return Err(e);
        },
    };
    synthesize_all(local, &names)
}

} // verus!

use from_remote::model::{FieldSet, NamedField};
use from_remote::procedure::{Binding, ConstructExpr, ConvertExpr, DestructurePattern};
use from_remote::shape::{TypeShape, TypeSig};
use from_remote::synthesis::{synthesize_field, synthesize_member};

fn named(head: &str) -> TypeSig {
    TypeSig::Named { head: head.to_string(), args: Vec::new() }
}

fn field(name: &str, head: &str) -> NamedField {
    NamedField { name: name.to_string(), ty: named(head) }
}

#[test]
fn field_expression_follows_shape() {
    let b = Binding::Name("x".to_string());
    assert_eq!(synthesize_field(b.clone(), TypeShape::Direct), ConvertExpr::Direct(b.clone()));
    assert_eq!(
        synthesize_field(b.clone(), TypeShape::Sequence),
        ConvertExpr::MapElements(b.clone())
    );
    assert_eq!(
        synthesize_field(b.clone(), TypeShape::AssociativeMap),
        ConvertExpr::MapEntries(b.clone())
    );
    assert_eq!(synthesize_field(b.clone(), TypeShape::Monadic), ConvertExpr::MapInner(b));
}

#[test]
fn named_member_enumerates_every_field_once() {
    let fields = FieldSet::Named(vec![
        field("bar", "U64"),
        field("fizz", "String"),
        field("buzz", "Pook"),
    ]);
    let m = synthesize_member(&fields);
    assert_eq!(
        m.pattern,
        DestructurePattern::Named(vec![
            "bar".to_string(),
            "fizz".to_string(),
            "buzz".to_string(),
        ])
    );
    match m.construct {
        ConstructExpr::Named(assigns) => {
            assert_eq!(assigns.len(), 3);
            for (assign, name) in assigns.iter().zip(["bar", "fizz", "buzz"]) {
                assert_eq!(assign.name, name);
                assert_eq!(assign.expr, ConvertExpr::Direct(Binding::Name(name.to_string())));
            }
        },
        other => panic!("expected named construction, got {:?}", other),
    }
}

#[test]
fn sequence_field_maps_elements_and_recollects() {
    let fields = FieldSet::Named(vec![field("fizz", "Vec")]);
    let m = synthesize_member(&fields);
    let expected = ConvertExpr::MapElements(Binding::Name("fizz".to_string()));
    match m.construct {
        ConstructExpr::Named(assigns) => {
            assert_eq!(assigns.len(), 1);
            assert_eq!(assigns[0].expr, expected);
        },
        other => panic!("expected named construction, got {:?}", other),
    }

    // The mapped expression applies the element conversion item by item: with
    // an identity element conversion, a remote sequence comes through intact.
    let remote = vec!["a".to_string(), "b".to_string()];
    let converted = apply_to_sequence(&expected, remote.clone());
    assert_eq!(converted, remote);
}

// Applies a synthesized sequence conversion to a concrete remote sequence,
// with the String-to-String element conversion (the identity).
fn apply_to_sequence(expr: &ConvertExpr, remote: Vec<String>) -> Vec<String> {
    match expr {
        ConvertExpr::MapElements(_) => remote.into_iter().map(|item| item).collect(),
        other => panic!("expected an element-mapping expression, got {:?}", other),
    }
}

#[test]
fn map_field_maps_entries() {
    let fields = FieldSet::Named(vec![field("index", "BTreeMap")]);
    let m = synthesize_member(&fields);
    match m.construct {
        ConstructExpr::Named(assigns) => {
            assert_eq!(assigns[0].expr, ConvertExpr::MapEntries(Binding::Name("index".to_string())));
        },
        other => panic!("expected named construction, got {:?}", other),
    }
}

#[test]
fn monadic_field_maps_inner_value() {
    let fields = FieldSet::Named(vec![field("maybe", "Option")]);
    let m = synthesize_member(&fields);
    match m.construct {
        ConstructExpr::Named(assigns) => {
            assert_eq!(assigns[0].expr, ConvertExpr::MapInner(Binding::Name("maybe".to_string())));
        },
        other => panic!("expected named construction, got {:?}", other),
    }
}

#[test]
fn positional_member_binds_synthetic_indexes_in_order() {
    let fields = FieldSet::Positional(vec![named("u64"), named("Option")]);
    let m = synthesize_member(&fields);
    assert_eq!(m.pattern, DestructurePattern::Positional(vec![0, 1]));
    assert_eq!(
        m.construct,
        ConstructExpr::Positional(vec![
            ConvertExpr::Direct(Binding::Index(0)),
            ConvertExpr::MapInner(Binding::Index(1)),
        ])
    );
}

#[test]
fn unit_member_converts_as_the_bare_name() {
    let m = synthesize_member(&FieldSet::Unit);
    assert_eq!(m.pattern, DestructurePattern::Unit);
    assert_eq!(m.construct, ConstructExpr::Unit);
}

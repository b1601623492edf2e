use delegate_trait::model::{AggregateTypeDescription, FieldDescription, FieldId};
use delegate_trait::output::{Diagnostic, FieldConformance};
use delegate_trait::wiring::{delegate_to_field, delegating_impl, valid_target};

fn field(ident: FieldId, ty: &str, targets: &[&str]) -> FieldDescription {
    FieldDescription {
        ident,
        ty: ty.to_string(),
        targets: targets.iter().map(|t| t.to_string()).collect(),
    }
}

fn aggregate(name: &str, fields: Vec<FieldDescription>) -> AggregateTypeDescription {
    AggregateTypeDescription { name: name.to_string(), fields }
}

#[test]
fn target_names_parse_like_paths() {
    assert!(valid_target("DelegatedTestTrait"));
    assert!(valid_target("DelegatedTestTrait<u32>"));
    assert!(valid_target("DelegatedTestTrait<u32, u8>"));
    assert!(valid_target("crate::DelegatedGreeter"));
    assert!(valid_target("_private"));
    assert!(!valid_target(""));
    assert!(!valid_target("9Delegated"));
    assert!(!valid_target("Delegated<u32"));
    assert!(!valid_target("Delegated>u32<"));
    assert!(!valid_target("Delegated Trait!"));
    assert!(!valid_target("<Delegated>"));
}

#[test]
fn single_named_field_wires_to_one_conformance() {
    let desc = aggregate(
        "B",
        vec![field(FieldId::Named("a".to_string()), "A", &["DelegatedTestTrait"])],
    );
    let w = delegating_impl(desc);
    assert!(w.diagnostics.is_empty());
    assert_eq!(
        w.conformances,
        vec![FieldConformance {
            aggregate: "B".to_string(),
            target: "DelegatedTestTrait".to_string(),
            field: FieldId::Named("a".to_string()),
            field_ty: "A".to_string(),
        }]
    );
}

#[test]
fn positional_field_wires_like_a_named_one() {
    let desc = aggregate(
        "ExampleTuple",
        vec![field(FieldId::Positional(0), "u32", &["DelegatedExampleTrait"])],
    );
    let w = delegating_impl(desc);
    assert!(w.diagnostics.is_empty());
    assert_eq!(w.conformances.len(), 1);
    assert_eq!(w.conformances[0].field, FieldId::Positional(0));
    assert_eq!(w.conformances[0].field_ty, "u32");
}

#[test]
fn one_field_may_target_several_interfaces() {
    let desc = aggregate(
        "Multi",
        vec![field(
            FieldId::Named("inner".to_string()),
            "Name",
            &["DelegatedGreeter", "DelegatedLogger"],
        )],
    );
    let w = delegating_impl(desc);
    assert!(w.diagnostics.is_empty());
    assert_eq!(w.conformances.len(), 2);
    assert_eq!(w.conformances[0].target, "DelegatedGreeter");
    assert_eq!(w.conformances[1].target, "DelegatedLogger");
    assert_eq!(w.conformances[0].field, w.conformances[1].field);
}

#[test]
fn two_fields_keep_their_own_targets() {
    let desc = aggregate(
        "Pair",
        vec![
            field(FieldId::Named("a".to_string()), "A", &["DelegatedGreeter"]),
            field(FieldId::Named("b".to_string()), "B", &["DelegatedLogger"]),
        ],
    );
    let w = delegating_impl(desc);
    assert!(w.diagnostics.is_empty());
    assert_eq!(w.conformances.len(), 2);
    assert_eq!(w.conformances[0].field, FieldId::Named("a".to_string()));
    assert_eq!(w.conformances[0].target, "DelegatedGreeter");
    assert_eq!(w.conformances[0].field_ty, "A");
    assert_eq!(w.conformances[1].field, FieldId::Named("b".to_string()));
    assert_eq!(w.conformances[1].target, "DelegatedLogger");
    assert_eq!(w.conformances[1].field_ty, "B");
}

#[test]
fn malformed_directive_aborts_its_field_only() {
    let desc = aggregate(
        "Partial",
        vec![
            field(FieldId::Named("bad".to_string()), "A", &["Delegated<u32"]),
            field(FieldId::Named("good".to_string()), "B", &["DelegatedLogger"]),
        ],
    );
    let w = delegating_impl(desc);
    assert_eq!(
        w.diagnostics,
        vec![Diagnostic::MalformedWiringArguments {
            aggregate: "Partial".to_string(),
            field: FieldId::Named("bad".to_string()),
        }]
    );
    assert_eq!(w.conformances.len(), 1);
    assert_eq!(w.conformances[0].field, FieldId::Named("good".to_string()));
}

#[test]
fn field_without_targets_generates_nothing() {
    let desc = aggregate(
        "Quiet",
        vec![field(FieldId::Named("plain".to_string()), "String", &[])],
    );
    let w = delegating_impl(desc);
    assert!(w.diagnostics.is_empty());
    assert!(w.conformances.is_empty());
}

#[test]
fn ad_hoc_directive_builds_the_same_conformance() {
    let r = delegate_to_field(
        FieldId::Named("a".to_string()),
        "A".to_string(),
        "DelegatedTestTrait".to_string(),
        "B".to_string(),
    );
    assert_eq!(
        r,
        Ok(FieldConformance {
            aggregate: "B".to_string(),
            target: "DelegatedTestTrait".to_string(),
            field: FieldId::Named("a".to_string()),
            field_ty: "A".to_string(),
        })
    );
}

#[test]
fn ad_hoc_directive_rejects_a_malformed_target() {
    let r = delegate_to_field(
        FieldId::Positional(1),
        "A".to_string(),
        "not a path!".to_string(),
        "B".to_string(),
    );
    assert_eq!(
        r,
        Err(Diagnostic::MalformedWiringArguments {
            aggregate: "B".to_string(),
            field: FieldId::Positional(1),
        })
    );
}

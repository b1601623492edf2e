use delegate_trait::model::{FnArg, TypeExpr, TypePath};
use delegate_trait::receiver::{classify, path_is_self, ReceiverKind, SelfArg};

fn self_path() -> TypePath {
    TypePath { segments: vec!["Self".to_string()] }
}

fn path(segments: &[&str]) -> TypePath {
    TypePath { segments: segments.iter().map(|s| s.to_string()).collect() }
}

#[test]
fn self_arg_new_maps_flags() {
    assert_eq!(SelfArg::new(true, true), SelfArg::MutRef);
    assert_eq!(SelfArg::new(true, false), SelfArg::Ref);
    assert_eq!(SelfArg::new(false, false), SelfArg::Value);
    assert_eq!(SelfArg::new(false, true), SelfArg::Value);
}

#[test]
fn path_is_self_exact_only() {
    assert!(path_is_self(&self_path()));
    assert!(!path_is_self(&path(&["Self", "Assoc"])));
    assert!(!path_is_self(&path(&["NotSelf"])));
    assert!(!path_is_self(&path(&[])));
    assert!(!path_is_self(&path(&["self"])));
}

#[test]
fn try_from_type_marks_self_forms() {
    let plain = TypeExpr::Path(self_path());
    assert_eq!(SelfArg::try_from_type(&plain), Some(SelfArg::Value));

    let by_ref = TypeExpr::Reference { mutable: false, inner: Box::new(TypeExpr::Path(self_path())) };
    assert_eq!(SelfArg::try_from_type(&by_ref), Some(SelfArg::Ref));

    let by_mut = TypeExpr::Reference { mutable: true, inner: Box::new(TypeExpr::Path(self_path())) };
    assert_eq!(SelfArg::try_from_type(&by_mut), Some(SelfArg::MutRef));
}

#[test]
fn try_from_type_leaves_other_types_unmarked() {
    let other = TypeExpr::Path(path(&["u32"]));
    assert_eq!(SelfArg::try_from_type(&other), None);

    let assoc = TypeExpr::Path(path(&["Self", "Assoc"]));
    assert_eq!(SelfArg::try_from_type(&assoc), None);

    let ref_other = TypeExpr::Reference {
        mutable: false,
        inner: Box::new(TypeExpr::Path(path(&["str"]))),
    };
    assert_eq!(SelfArg::try_from_type(&ref_other), None);

    let nested = TypeExpr::Reference {
        mutable: false,
        inner: Box::new(TypeExpr::Reference {
            mutable: false,
            inner: Box::new(TypeExpr::Path(self_path())),
        }),
    };
    assert_eq!(SelfArg::try_from_type(&nested), None);

    let verbatim = TypeExpr::Verbatim("Vec<Self>".to_string());
    assert_eq!(SelfArg::try_from_type(&verbatim), None);
}

#[test]
fn try_from_arg_sees_receivers_only() {
    let by_value = FnArg::Receiver { reference: false, mutable: false };
    assert_eq!(SelfArg::try_from_arg(&by_value), Some(SelfArg::Value));

    let by_ref = FnArg::Receiver { reference: true, mutable: false };
    assert_eq!(SelfArg::try_from_arg(&by_ref), Some(SelfArg::Ref));

    let by_mut = FnArg::Receiver { reference: true, mutable: true };
    assert_eq!(SelfArg::try_from_arg(&by_mut), Some(SelfArg::MutRef));

    let typed = FnArg::Typed { pat: "s".to_string(), ty: TypeExpr::Path(self_path()) };
    assert_eq!(SelfArg::try_from_arg(&typed), None);
}

#[test]
fn classify_is_total_over_first_parameters() {
    assert_eq!(classify(None), ReceiverKind::Static);

    let typed = FnArg::Typed { pat: "s".to_string(), ty: TypeExpr::Path(self_path()) };
    assert_eq!(classify(Some(&typed)), ReceiverKind::Static);

    let by_value = FnArg::Receiver { reference: false, mutable: false };
    assert_eq!(classify(Some(&by_value)), ReceiverKind::ByValue);

    let by_ref = FnArg::Receiver { reference: true, mutable: false };
    assert_eq!(classify(Some(&by_ref)), ReceiverKind::ByRef);

    let by_mut = FnArg::Receiver { reference: true, mutable: true };
    assert_eq!(classify(Some(&by_mut)), ReceiverKind::ByMutRef);
}

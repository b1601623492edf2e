//! The structured code that generation emits: the companion access
//! interface, the items of the universal forwarding conformance, direct
//! field conformances for aggregate types, and the diagnostics collected
//! along the way.

use vstd::prelude::*;
use crate::model::{FieldId, FunctionSignature, TypeExpr};
use crate::receiver::SelfArg;

verus! {

/// How one argument of a forwarded call is passed to the inner function:
/// unchanged, or unwrapped through an accessor because its declared type
/// is the interface's own abstract type.
#[derive(Debug, PartialEq, Eq)]
pub enum ArgForm {
    Plain { pat: String },
    Projected { pat: String, kind: SelfArg },
}

/// Where a forwarded function body directs its single call: through one
/// of the receiver's accessors, or through the associated delegate type
/// when no receiving instance exists.
#[derive(Debug, Clone, Copy, PartialEq, Eq)]
pub enum CallTarget {
    Static,
    Receiver(SelfArg),
}

/// A generation-time diagnostic, attributed to the originating
/// declaration.
#[derive(Debug, PartialEq, Eq)]
pub enum Diagnostic {
    /// An interface item is a nested code-generation directive.
    UnsupportedItemKind { item: String },
    /// A function item lacks a receiver where the active generation mode
    /// requires one; names the function.
    MissingReceiver { function: String },
    /// A field wiring directive's argument list does not parse as a list
    /// of access-interface names.
    MalformedWiringArguments { aggregate: String, field: FieldId },
}

/// One item of the universal forwarding conformance: a forwarding
/// function (the signature is the source's, only the body differs), a
/// constant or associated type defined as a direct projection of the
/// inner type's item of the same name, a verbatim re-emission, or an
/// error marker standing in for a rejected item.
#[derive(Debug, PartialEq, Eq)]
pub enum ImplItem {
    FwdFn { sig: FunctionSignature, target: CallTarget, args: Vec<ArgForm> },
    FwdConst { name: String, ty: TypeExpr },
    FwdType { name: String },
    Verbatim { text: String },
    ErrorMarker { diagnostic: Diagnostic },
}

/// The synthesized companion access interface: its name, the source
/// interface's generics, and the supertrait bounds placed on the
/// associated delegate type. Its three accessor operations and the
/// delegate type itself have a fixed shape and carry no data here.
#[derive(Debug, PartialEq, Eq)]
pub struct AccessInterface {
    pub name: String,
    pub generics: Vec<String>,
    pub delegate_bounds: Vec<String>,
}

/// Everything generated for one interface: the access interface, the
/// items of the single universal forwarding conformance, the source
/// where-clause carried onto it, and the diagnostics in declaration
/// order.
#[derive(Debug, PartialEq, Eq)]
pub struct Generation {
    pub trait_name: String,
    pub access: AccessInterface,
    pub where_predicates: Vec<String>,
    pub items: Vec<ImplItem>,
    pub diagnostics: Vec<Diagnostic>,
}

/// One direct conformance of an access interface for an aggregate type:
/// the delegate type is the field's declared type, and the three
/// accessors move, borrow, or mutably borrow that field.
#[derive(Debug, PartialEq, Eq)]
pub struct FieldConformance {
    pub aggregate: String,
    pub target: String,
    pub field: FieldId,
    pub field_ty: String,
}

/// Everything generated for one aggregate type: its field conformances
/// and the diagnostics in field order.
#[derive(Debug, PartialEq, Eq)]
pub struct WiringOutput {
    pub conformances: Vec<FieldConformance>,
    pub diagnostics: Vec<Diagnostic>,
}

} // verus!

//! The structured description of an interface or an aggregate type, as the
//! front end hands it to generation: names, generic parameters, items and
//! fields, reduced to the plain values that generation inspects.

use vstd::prelude::*;

verus! {

/// A type path as it appears in a declared type, as its ordered segment
/// names: `a::b::C` has segments `["a", "b", "C"]`.
#[derive(Debug, PartialEq, Eq)]
pub struct TypePath {
    pub segments: Vec<String>,
}

/// A declared type, reduced to what generation inspects: a path, a
/// reference (with its mutability and referent), or anything else,
/// carried verbatim as text.
#[derive(Debug, PartialEq, Eq)]
pub enum TypeExpr {
    Path(TypePath),
    Reference { mutable: bool, inner: Box<TypeExpr> },
    Verbatim(String),
}

/// One entry of a function signature's parameter list: either the
/// receiver (`self`, `&self` or `&mut self`) or an ordinary parameter
/// with its binding pattern and declared type.
#[derive(Debug, PartialEq, Eq)]
pub enum FnArg {
    Receiver { reference: bool, mutable: bool },
    Typed { pat: String, ty: TypeExpr },
}

/// A function signature of an interface: name, generic parameters
/// (each carried verbatim), ordered parameter list, and return type.
/// The receiver kind is derived from the first parameter, never stored.
#[derive(Debug, PartialEq, Eq)]
pub struct FunctionSignature {
    pub name: String,
    pub generics: Vec<String>,
    pub inputs: Vec<FnArg>,
    pub output: Option<TypeExpr>,
}

impl FunctionSignature {
    /// A well-formed signature has a receiver only in first position,
    /// as the source language's grammar guarantees.
    pub open spec fn wf(self) -> bool {
        forall|i: int| 1 <= i < self.inputs@.len() ==> !((#[trigger] self.inputs@[i]) is Receiver)
    }
}

/// One item of an interface definition.
#[derive(Debug, PartialEq, Eq)]
pub enum InterfaceItem {
    Function(FunctionSignature),
    Constant { name: String, ty: TypeExpr },
    AssociatedType { name: String },
    /// A nested code-generation directive inside the interface body:
    /// opaque to generation and always rejected.
    NestedGenerator { text: String },
    /// Anything else, re-emitted verbatim with no analysis.
    Opaque { text: String },
}

impl InterfaceItem {
    pub open spec fn wf(self) -> bool {
        match self {
            InterfaceItem::Function(sig) => sig.wf(),
            _ => true,
        }
    }
}

/// A parsed interface definition: name, generic parameters, where-clause
/// predicates and supertrait bounds (each carried verbatim), and the
/// ordered item list.
#[derive(Debug, PartialEq, Eq)]
pub struct InterfaceDefinition {
    pub name: String,
    pub generics: Vec<String>,
    pub where_predicates: Vec<String>,
    pub supertraits: Vec<String>,
    pub items: Vec<InterfaceItem>,
}

impl InterfaceDefinition {
    pub open spec fn wf(self) -> bool {
        forall|i: int| 0 <= i < self.items@.len() ==> (#[trigger] self.items@[i]).wf()
    }
}

/// Whether generation accepts receiver-less interface functions and
/// dispatches them through the associated delegate type, or requires a
/// receiver and reports the function otherwise.
#[derive(Debug, Clone, Copy, PartialEq, Eq)]
pub enum GenerationMode {
    AllowStatic,
    RequireReceiver,
}

/// A field of an aggregate type, identified by name or by position.
#[derive(Debug, PartialEq, Eq)]
pub enum FieldId {
    Named(String),
    Positional(usize),
}

/// One field of an aggregate type together with the access interfaces it
/// is declared to satisfy.
#[derive(Debug, PartialEq, Eq)]
pub struct FieldDescription {
    pub ident: FieldId,
    pub ty: String,
    pub targets: Vec<String>,
}

/// A parsed aggregate type declaration: its name and its ordered fields.
#[derive(Debug, PartialEq, Eq)]
pub struct AggregateTypeDescription {
    pub name: String,
    pub fields: Vec<FieldDescription>,
}

} // verus!

//! Receiver classification and self-type recognition: every interface
//! function yields exactly one receiver kind, and a non-receiver parameter
//! whose declared type is the interface's own abstract type (or a
//! reference to it) is marked for projection through the same accessors.

use vstd::prelude::*;
use crate::model::{FnArg, TypeExpr, TypePath};

verus! {

/// The accessor through which a forwarded call reaches the inner value:
/// taking it by value, by shared reference, or by mutable reference.
#[derive(Debug, Clone, Copy, PartialEq, Eq)]
pub enum SelfArg {
    Value,
    Ref,
    MutRef,
}

/// The four receiver kinds of an interface function: no receiving
/// instance at all, or a receiver taken by value, by shared reference,
/// or by mutable reference.
#[derive(Debug, Clone, Copy, PartialEq, Eq)]
pub enum ReceiverKind {
    Static,
    ByValue,
    ByRef,
    ByMutRef,
}

/// Classification by reference and mutability flags: a non-reference is
/// taken by value whatever its mutability.
pub open spec fn spec_self_arg(isref: bool, ismut: bool) -> SelfArg {
    if isref && ismut {
        SelfArg::MutRef
    } else if isref {
        SelfArg::Ref
    } else {
        SelfArg::Value
    }
}

/// Whether a path is exactly the interface's own abstract type.
pub open spec fn spec_path_is_self(p: TypePath) -> bool {
    p.segments@.len() == 1 && p.segments@[0]@ == "Self"@
}

/// The projection mark of a declared type: the accessor kind when the
/// type is the interface's own abstract type or a reference to it, and
/// nothing otherwise.
pub open spec fn spec_self_projection(ty: TypeExpr) -> Option<SelfArg> {
    match ty {
        TypeExpr::Path(p) => if spec_path_is_self(p) {
            Some(spec_self_arg(false, false))
        } else {
            None
        },
        TypeExpr::Reference { mutable, inner } => match *inner {
            TypeExpr::Path(p) => if spec_path_is_self(p) {
                Some(spec_self_arg(true, mutable))
            } else {
                None
            },
            _ => None,
        },
        TypeExpr::Verbatim(_) => None,
    }
}

/// The accessor kind of a parameter-list entry, present exactly when the
/// entry is a receiver.
pub open spec fn spec_receiver_of(arg: FnArg) -> Option<SelfArg> {
    match arg {
        FnArg::Receiver { reference, mutable } => Some(spec_self_arg(reference, mutable)),
        FnArg::Typed { .. } => None,
    }
}

/// The receiver kind named by an accessor kind.
pub open spec fn kind_of(a: SelfArg) -> ReceiverKind {
    match a {
        SelfArg::Value => ReceiverKind::ByValue,
        SelfArg::Ref => ReceiverKind::ByRef,
        SelfArg::MutRef => ReceiverKind::ByMutRef,
    }
}

/// The receiver kind of a function from its first parameter, or from its
/// absence: only an actual receiver binding yields an instance kind.
pub open spec fn spec_classify(first: Option<&FnArg>) -> ReceiverKind {
    match first {
        Some(arg) => match *arg {
            FnArg::Receiver { reference, mutable } => kind_of(spec_self_arg(reference, mutable)),
            FnArg::Typed { .. } => ReceiverKind::Static,
        },
        None => ReceiverKind::Static,
    }
}

pub fn path_is_self(path: &TypePath) -> (r: bool)
    ensures
        r == spec_path_is_self(*path),
{
    if path.segments.len() != 1 {
        return false;
    }
    let self_name: String = String::from_str("Self");
    let seg: &String = &path.segments[0];
    *seg == self_name
}

impl SelfArg {
    /// Builds the accessor kind from reference and mutability flags.
    pub fn new(isref: bool, ismut: bool) -> (r: Self)
        ensures
            r == spec_self_arg(isref, ismut),
    {
        match (isref, ismut) {
            (true, true) => Self::MutRef,
            (true, false) => Self::Ref,
            _ => Self::Value,
        }
    }

    /// Marks a declared type for projection when it is the interface's
    /// own abstract type or a reference to it.
    pub fn try_from_type(ty: &TypeExpr) -> (r: Option<Self>)
        ensures
            r == spec_self_projection(*ty),
    {
        match ty {
            TypeExpr::Path(p) => if path_is_self(p) {
                Some(SelfArg::new(false, false))
            } else {
                None
            },
            TypeExpr::Reference { mutable, inner } => match &**inner {
                TypeExpr::Path(p) => if path_is_self(p) {
                    Some(SelfArg::new(true, *mutable))
                } else {
                    None
                },
                _ => None,
            },
            TypeExpr::Verbatim(_) => None,
        }
    }

    /// The accessor kind of a parameter-list entry, for receivers only.
    pub fn try_from_arg(arg: &FnArg) -> (r: Option<Self>)
        ensures
            r == spec_receiver_of(*arg),
    {
        match arg {
            FnArg::Receiver { reference, mutable } => Some(Self::new(*reference, *mutable)),
            FnArg::Typed { .. } => None,
        }
    }
}

/// Maps a function's first parameter, or its absence, to its receiver
/// kind. The mapping is total: every signature yields exactly one kind.
pub fn classify(first: Option<&FnArg>) -> (r: ReceiverKind)
    ensures
        r == spec_classify(first),
{
    match first {
        Some(arg) => match SelfArg::try_from_arg(arg) {
            Some(SelfArg::Value) => ReceiverKind::ByValue,
            Some(SelfArg::Ref) => ReceiverKind::ByRef,
            Some(SelfArg::MutRef) => ReceiverKind::ByMutRef,
            None => ReceiverKind::Static,
        },
        None => ReceiverKind::Static,
    }
}

} // verus!

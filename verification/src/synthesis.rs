//! Synthesis of the companion access interface and of the universal
//! forwarding conformance: one generated item per source item, each
//! forwarding function performing exactly one call through the accessor
//! that its receiver kind selects, with self-typed arguments projected.

use vstd::prelude::*;
use vstd::string::*;
use crate::model::{FnArg, FunctionSignature, GenerationMode, InterfaceDefinition, InterfaceItem};
use crate::output::{AccessInterface, ArgForm, CallTarget, Diagnostic, Generation, ImplItem};
use crate::receiver::{spec_self_arg, spec_self_projection, SelfArg};

verus! {

/// How one non-receiver parameter is handed to the inner call: projected
/// through an accessor when its declared type is the interface's own
/// abstract type, and unchanged otherwise.
pub open spec fn spec_arg_form(arg: FnArg) -> ArgForm {
    match arg {
        FnArg::Typed { pat, ty } => match spec_self_projection(ty) {
            Some(k) => ArgForm::Projected { pat, kind: k },
            None => ArgForm::Plain { pat },
        },
        FnArg::Receiver { .. } => ArgForm::Plain { pat: arbitrary() },
    }
}

/// The parameters a forwarding body passes on: every parameter except
/// the receiver.
pub open spec fn spec_forward_params(inputs: Seq<FnArg>) -> Seq<FnArg> {
    if inputs.len() > 0 && inputs[0] is Receiver {
        inputs.drop_first()
    } else {
        inputs
    }
}

/// The single call a forwarding body makes: through the accessor that
/// the receiver's ownership selects, or through the associated delegate
/// type when the function has no receiver.
pub open spec fn spec_call_target(inputs: Seq<FnArg>) -> CallTarget {
    if inputs.len() > 0 {
        match inputs[0] {
            FnArg::Receiver { reference, mutable } => CallTarget::Receiver(
                spec_self_arg(reference, mutable),
            ),
            FnArg::Typed { .. } => CallTarget::Static,
        }
    } else {
        CallTarget::Static
    }
}

/// The forwarding function generated for a signature: the signature
/// itself unchanged, the call target chosen by the receiver kind, and
/// each remaining argument passed plain or projected.
pub open spec fn spec_fn_item_ok(out: ImplItem, sig: FunctionSignature) -> bool {
    match out {
        ImplItem::FwdFn { sig: s, target, args } => {
            &&& s == sig
            &&& target == spec_call_target(sig.inputs@)
            &&& args@ == spec_forward_params(sig.inputs@).map_values(|a: FnArg| spec_arg_form(a))
        },
        _ => false,
    }
}

/// The diagnostic an item draws under a mode, if any: a nested
/// code-generation directive is always unsupported, and a receiver-less
/// function is reported by name when the mode requires a receiver.
pub open spec fn spec_item_diag(item: InterfaceItem, mode: GenerationMode) -> Option<Diagnostic> {
    match item {
        InterfaceItem::Function(sig) => if mode is RequireReceiver && spec_call_target(
            sig.inputs@,
        ) is Static {
            Some(Diagnostic::MissingReceiver { function: sig.name })
        } else {
            None
        },
        InterfaceItem::NestedGenerator { text } => Some(
            Diagnostic::UnsupportedItemKind { item: text },
        ),
        _ => None,
    }
}

/// The conformance item generated for one interface item under one
/// mode: a failed item is replaced by an error marker carrying its
/// diagnostic; constants and associated types become direct projections
/// under their own names; opaque items are re-emitted verbatim.
pub open spec fn spec_item_ok(out: ImplItem, item: InterfaceItem, mode: GenerationMode) -> bool {
    match spec_item_diag(item, mode) {
        Some(d) => out == (ImplItem::ErrorMarker { diagnostic: d }),
        None => match item {
            InterfaceItem::Function(sig) => spec_fn_item_ok(out, sig),
            InterfaceItem::Constant { name, ty } => out == (ImplItem::FwdConst { name, ty }),
            InterfaceItem::AssociatedType { name } => out == (ImplItem::FwdType { name }),
            InterfaceItem::NestedGenerator { .. } => false,
            InterfaceItem::Opaque { text } => out == (ImplItem::Verbatim { text }),
        },
    }
}

/// The diagnostics of an item list under a mode, one per failed item, in
/// declaration order.
pub open spec fn spec_diagnostics(items: Seq<InterfaceItem>, mode: GenerationMode) -> Seq<
    Diagnostic,
>
    decreases items.len(),
{
    if items.len() == 0 {
        Seq::empty()
    } else {
        let rest = spec_diagnostics(items.drop_last(), mode);
        match spec_item_diag(items.last(), mode) {
            Some(d) => rest.push(d),
            None => rest,
        }
    }
}

/// The access-interface name of an interface: "Delegated" concatenated
/// with the interface's name, exactly.
pub fn access_interface_name(name: &str) -> (r: String)
    ensures
        r@ == "Delegated"@ + name@,
{
    let prefix: String = String::from_str("Delegated");
    prefix.concat(name)
}

/// Builds the forwarding function for one source function: an error
/// marker naming the function when the mode requires a receiver and the
/// function has none, and otherwise a body of exactly one call, routed
/// per the receiver kind, with self-typed arguments projected.
pub fn implement_fn(sig: FunctionSignature, mode: GenerationMode) -> (r: (
    ImplItem,
    Option<Diagnostic>,
))
    requires
        sig.wf(),
    ensures
        spec_item_ok(r.0, InterfaceItem::Function(sig), mode),
        r.1 == spec_item_diag(InterfaceItem::Function(sig), mode),
{
    let target: CallTarget = if sig.inputs.len() > 0 {
        match SelfArg::try_from_arg(&sig.inputs[0]) {
            Some(k) => CallTarget::Receiver(k),
            None => CallTarget::Static,
        }
    } else {
        CallTarget::Static
    };
    proof {
        assert(target == spec_call_target(sig.inputs@));
    }
    if matches!(mode, GenerationMode::RequireReceiver) && matches!(target, CallTarget::Static) {
        let fname: String = sig.name.clone();
        let marker = ImplItem::ErrorMarker {
            diagnostic: Diagnostic::MissingReceiver { function: sig.name },
        };
        return (marker, Some(Diagnostic::MissingReceiver { function: fname }));
    }
    let start: usize = if matches!(target, CallTarget::Receiver(_)) {
        1
    } else {
        0
    };
    let n: usize = sig.inputs.len();
    let ghost params: Seq<FnArg> = spec_forward_params(sig.inputs@);
    proof {
        assert(params =~= sig.inputs@.subrange(start as int, n as int));
    }
    let mut args: Vec<ArgForm> = Vec::new();
    let mut i: usize = start;
    while i < n
        invariant
            start <= i <= n,
            start <= 1,
            n == sig.inputs@.len(),
            sig.wf(),
            params == sig.inputs@.subrange(start as int, n as int),
            start == 0 ==> (n == 0 || !(sig.inputs@[0] is Receiver)),
            args@.len() == i - start,
            forall|j: int| 0 <= j < args@.len() ==> args@[j] == spec_arg_form(#[trigger] params[j]),
        decreases n - i,
    {
        let arg: &FnArg = &sig.inputs[i];
        proof {
            assert(*arg == sig.inputs@[i as int]);
            assert(!(sig.inputs@[i as int] is Receiver));
        }
        match arg {
            FnArg::Typed { pat, ty } => {
                let p: String = pat.clone();
                match SelfArg::try_from_type(ty) {
                    Some(k) => args.push(ArgForm::Projected { pat: p, kind: k }),
                    None => args.push(ArgForm::Plain { pat: p }),
                }
            },
            FnArg::Receiver { .. } => {
                proof {
                    assert(false);
                }
            },
        }
        i += 1;
    }
    proof {
        assert(args@ =~= params.map_values(|a: FnArg| spec_arg_form(a)));
    }
    (ImplItem::FwdFn { sig, target, args }, None)
}

/// Builds the conformance item for one interface item: functions
/// forward, constants and associated types project under the same name,
/// opaque items pass through verbatim, and a nested code-generation
/// directive is rejected without blocking its siblings.
pub fn implement_item(item: InterfaceItem, mode: GenerationMode) -> (r: (
    ImplItem,
    Option<Diagnostic>,
))
    requires
        item.wf(),
    ensures
        spec_item_ok(r.0, item, mode),
        r.1 == spec_item_diag(item, mode),
{
    match item {
        InterfaceItem::Function(sig) => implement_fn(sig, mode),
        InterfaceItem::Constant { name, ty } => (ImplItem::FwdConst { name, ty }, None),
        InterfaceItem::AssociatedType { name } => (ImplItem::FwdType { name }, None),
        InterfaceItem::NestedGenerator { text } => {
            let text2: String = text.clone();
            (
                ImplItem::ErrorMarker {
                    diagnostic: Diagnostic::UnsupportedItemKind { item: text },
                },
                Some(Diagnostic::UnsupportedItemKind { item: text2 }),
            )
        },
        InterfaceItem::Opaque { text } => (ImplItem::Verbatim { text }, None),
    }
}

/// Generates everything for one interface: the companion access
/// interface (named "Delegated" plus the interface's name, with the
/// source generics, and with the supertraits as bounds on the delegate
/// type) and the items of the single universal forwarding conformance.
/// Items are processed independently: a failed item leaves an error
/// marker and its diagnostic while every sibling still generates, and
/// diagnostics keep declaration order.
pub fn delegated_impl(def: InterfaceDefinition, mode: GenerationMode) -> (g: Generation)
    requires
        def.wf(),
    ensures
        g.trait_name == def.name,
        g.access.name@ == "Delegated"@ + def.name@,
        g.access.generics == def.generics,
        g.access.delegate_bounds == def.supertraits,
        g.where_predicates == def.where_predicates,
        g.items@.len() == def.items@.len(),
        forall|i: int| 0 <= i < def.items@.len() ==> spec_item_ok(
            #[trigger] g.items@[i],
            def.items@[i],
            mode,
        ),
        g.diagnostics@ == spec_diagnostics(def.items@, mode),
{
    let ghost def0 = def;
    let InterfaceDefinition { name, generics, where_predicates, supertraits, items } = def;
    let mut items = items;
    let access_name = access_interface_name(name.as_str());
    let n: usize = items.len();
    let mut out_items: Vec<ImplItem> = Vec::new();
    let mut diags: Vec<Diagnostic> = Vec::new();
    let mut done: usize = 0;
    while done < n
        invariant
            done <= n,
            n == def0.items@.len(),
            def0.wf(),
            items@ == def0.items@.subrange(done as int, n as int),
            out_items@.len() == done,
            forall|j: int| 0 <= j < done ==> spec_item_ok(
                #[trigger] out_items@[j],
                def0.items@[j],
                mode,
            ),
            diags@ == spec_diagnostics(def0.items@.take(done as int), mode),
        decreases n - done,
    {
        let item = items.remove(0);
        proof {
            assert(item == def0.items@[done as int]);
            assert(items@ =~= def0.items@.subrange(done as int + 1, n as int));
            assert(def0.items@[done as int].wf());
        }
        let (out, d) = implement_item(item, mode);
        out_items.push(out);
        proof {
            let prev = def0.items@.take(done as int);
            let cur = def0.items@.take(done as int + 1);
            assert(cur.drop_last() =~= prev);
            assert(cur.last() == def0.items@[done as int]);
            assert(spec_diagnostics(cur, mode) == match spec_item_diag(
                def0.items@[done as int],
                mode,
            ) {
                Some(dd) => spec_diagnostics(prev, mode).push(dd),
                None => spec_diagnostics(prev, mode),
            });
        }
        match d {
            Some(diag) => diags.push(diag),
            None => {},
        }
        done = done + 1;
    }
    proof {
        assert(def0.items@.take(n as int) =~= def0.items@);
    }
    Generation {
        trait_name: name,
        access: AccessInterface {
            name: access_name,
            generics,
            delegate_bounds: supertraits,
        },
        where_predicates,
        items: out_items,
        diagnostics: diags,
    }
}

} // verus!

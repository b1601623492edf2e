//! The meaning of the generated code, and the laws it obeys. A wrapper
//! value is modelled by the inner value its accessors reach; a call is
//! modelled by what the inner implementation receives: the function's
//! name, the receiving inner value (or none), and the argument values.
//! The laws state that a forwarded call hands the inner implementation
//! exactly what a direct call on the inner value would, that mutation
//! through a wired field stays visible, that distinct fields stay
//! isolated, and that associated items project unchanged.

use vstd::prelude::*;
use crate::model::{FieldDescription, FnArg, FunctionSignature, GenerationMode, InterfaceDefinition, InterfaceItem, TypeExpr};
use crate::output::{ArgForm, CallTarget, Diagnostic, FieldConformance, Generation, ImplItem};
use crate::receiver::spec_self_projection;
use crate::synthesis::{spec_arg_form, spec_call_target, spec_diagnostics, spec_fn_item_ok, spec_forward_params, spec_item_diag, spec_item_ok};
use crate::wiring::spec_wiring_conformances;

verus! {

/// An argument value as a forwarding call sees it: a plain value, or a
/// wrapper instance whose accessors reach the carried inner value.
pub enum SemVal<V> {
    Plain(V),
    Wrapped(V),
}

/// What an inner implementation receives from one call: the function's
/// name, the receiving inner value if the function has a receiver, and
/// the argument values in order.
#[verifier::ext_equal]
pub struct InnerCall<V> {
    pub fname: Seq<char>,
    pub receiver: Option<V>,
    pub args: Seq<SemVal<V>>,
}

/// The inner value an argument stands for.
pub open spec fn inner_of<V>(v: SemVal<V>) -> V {
    match v {
        SemVal::Plain(x) => x,
        SemVal::Wrapped(d) => d,
    }
}

/// A wrapper instance among the arguments is replaced by its inner
/// value; a plain value passes unchanged.
pub open spec fn unwrap_sem<V>(v: SemVal<V>) -> SemVal<V> {
    match v {
        SemVal::Wrapped(d) => SemVal::Plain(d),
        other => other,
    }
}

pub open spec fn unwrap_args<V>(wargs: Seq<SemVal<V>>) -> Seq<SemVal<V>> {
    wargs.map_values(|v: SemVal<V>| unwrap_sem(v))
}

/// What one generated argument form does to the value in its position:
/// a projected argument is unwrapped through an accessor, a plain one
/// passes as it is.
pub open spec fn sem_project<V>(form: ArgForm, v: SemVal<V>) -> SemVal<V> {
    match form {
        ArgForm::Projected { .. } => unwrap_sem(v),
        ArgForm::Plain { .. } => v,
    }
}

/// What the inner implementation receives when a generated forwarding
/// function runs on a wrapper whose accessors reach `wrapper_inner`:
/// the call goes to the function of the same name; the receiver is the
/// wrapper's inner value, or absent for a delegate-type dispatch; each
/// argument is passed as the generated form directs.
pub open spec fn forwarded_invocation<V>(
    item: ImplItem,
    wrapper_inner: V,
    wargs: Seq<SemVal<V>>,
) -> InnerCall<V>
    recommends
        item is FwdFn,
{
    match item {
        ImplItem::FwdFn { sig, target, args } => InnerCall {
            fname: sig.name@,
            receiver: match target {
                CallTarget::Static => None,
                CallTarget::Receiver(_) => Some(wrapper_inner),
            },
            args: Seq::new(wargs.len(), |i: int| sem_project(args@[i], wargs[i])),
        },
        _ => arbitrary(),
    }
}

/// What the inner implementation receives when the same function is
/// invoked directly on the inner value `d` with the given arguments.
pub open spec fn direct_invocation<V>(
    sig: FunctionSignature,
    d: V,
    dargs: Seq<SemVal<V>>,
) -> InnerCall<V> {
    InnerCall {
        fname: sig.name@,
        receiver: if spec_call_target(sig.inputs@) is Static {
            None
        } else {
            Some(d)
        },
        args: dargs,
    }
}

/// Whether a parameter's declared type is the interface's own abstract
/// type, or a reference to it.
pub open spec fn param_is_self(a: FnArg) -> bool {
    match a {
        FnArg::Typed { ty, .. } => spec_self_projection(ty) is Some,
        FnArg::Receiver { .. } => false,
    }
}

/// Whether the supplied argument values fit the parameter list: one
/// value per parameter, a wrapper instance exactly in the self-typed
/// positions, a plain value everywhere else.
pub open spec fn args_correspond<V>(params: Seq<FnArg>, wargs: Seq<SemVal<V>>) -> bool {
    &&& wargs.len() == params.len()
    &&& forall|i: int|
        0 <= i < params.len() ==> ((#[trigger] wargs[i]) is Wrapped <==> param_is_self(params[i]))
}

/// Round-trip equivalence: a function of the interface, forwarded by a
/// generated body through a wrapper whose accessors reach `d`, hands the
/// inner implementation exactly the call that invoking it directly on
/// `d` would, for every receiver kind and every fitting argument list;
/// in particular each wrapper instance among the arguments is replaced
/// by its own inner value, never passed as itself.
pub proof fn lemma_forwarding_round_trip<V>(
    sig: FunctionSignature,
    item: ImplItem,
    d: V,
    wargs: Seq<SemVal<V>>,
)
    requires
        sig.wf(),
        spec_fn_item_ok(item, sig),
        args_correspond(spec_forward_params(sig.inputs@), wargs),
    ensures
        forwarded_invocation(item, d, wargs) == direct_invocation(sig, d, unwrap_args(wargs)),
{
    let params = spec_forward_params(sig.inputs@);
    let fwd = forwarded_invocation(item, d, wargs);
    let dir = direct_invocation(sig, d, unwrap_args(wargs));
    match item {
        ImplItem::FwdFn { sig: s, target, args } => {
            assert forall|i: int| 0 <= i < wargs.len() implies fwd.args[i] == dir.args[i] by {
                assert(args@[i] == spec_arg_form(params[i]));
                if param_is_self(params[i]) {
                    assert(wargs[i] is Wrapped);
                } else {
                    assert(!(wargs[i] is Wrapped));
                    assert(sem_project(args@[i], wargs[i]) == wargs[i]);
                }
            }
            assert(fwd.args =~= dir.args);
            assert(fwd =~= dir);
        },
        _ => {
            assert(false);
        },
    }
}

/// Static dispatch: a receiver-less function's generated body routes
/// through the associated delegate type; it reads no receiving instance,
/// so any two wrapper values produce the very same inner call.
pub proof fn lemma_static_dispatch<V>(
    sig: FunctionSignature,
    item: ImplItem,
    d1: V,
    d2: V,
    wargs: Seq<SemVal<V>>,
)
    requires
        sig.wf(),
        spec_fn_item_ok(item, sig),
        spec_call_target(sig.inputs@) is Static,
        args_correspond(spec_forward_params(sig.inputs@), wargs),
    ensures
        forwarded_invocation(item, d1, wargs).receiver is None,
        forwarded_invocation(item, d1, wargs) == forwarded_invocation(item, d2, wargs),
{
    lemma_forwarding_round_trip(sig, item, d1, wargs);
    lemma_forwarding_round_trip(sig, item, d2, wargs);
}

/// Self-argument projection: where a parameter's declared type is the
/// interface's own abstract type, the forwarded call passes the inner
/// value of the wrapper instance supplied there — not the wrapper.
pub proof fn lemma_self_argument_projection<V>(
    sig: FunctionSignature,
    item: ImplItem,
    d: V,
    wargs: Seq<SemVal<V>>,
    i: int,
)
    requires
        sig.wf(),
        spec_fn_item_ok(item, sig),
        args_correspond(spec_forward_params(sig.inputs@), wargs),
        0 <= i < wargs.len(),
        wargs[i] is Wrapped,
    ensures
        forwarded_invocation(item, d, wargs).args[i] == SemVal::Plain(inner_of(wargs[i])),
{
    lemma_forwarding_round_trip(sig, item, d, wargs);
}

/// The field an aggregate's generated accessors read: `delegate` and
/// `delegate_ref` both reach the wired field's value.
pub open spec fn conformance_read<V>(c: FieldConformance, agg: Map<crate::model::FieldId, V>) -> V {
    agg[c.field]
}

/// The aggregate after a mutation through `delegate_ref_mut`: the wired
/// field holds the new value, every other field is untouched.
pub open spec fn conformance_write<V>(
    c: FieldConformance,
    agg: Map<crate::model::FieldId, V>,
    v: V,
) -> Map<crate::model::FieldId, V> {
    agg.insert(c.field, v)
}

/// Mutation visibility: a value written through a conformance's mutable
/// accessor is what every later read through the same conformance sees.
pub proof fn lemma_mutation_visibility<V>(
    c: FieldConformance,
    agg: Map<crate::model::FieldId, V>,
    v: V,
)
    ensures
        conformance_read(c, conformance_write(c, agg, v)) == v,
{
}

/// Mutation stays visible on later calls against the same wrapper: once
/// a mutable-receiver call has left the inner value as `nv`, the wired
/// field holds `nv`, and any later call forwarded through the same
/// conformance receives `nv` — the mutable borrow reaches the field
/// itself, never a copy.
pub proof fn lemma_mutation_visible_on_later_calls<V>(
    c: FieldConformance,
    agg: Map<crate::model::FieldId, V>,
    nv: V,
    sig: FunctionSignature,
    item: ImplItem,
    wargs: Seq<SemVal<V>>,
)
    requires
        sig.wf(),
        spec_fn_item_ok(item, sig),
        !(spec_call_target(sig.inputs@) is Static),
        args_correspond(spec_forward_params(sig.inputs@), wargs),
    ensures
        ({
            let later = conformance_read(c, conformance_write(c, agg, nv));
            forwarded_invocation(item, later, wargs).receiver == Some(nv)
        }),
{
    lemma_mutation_visibility(c, agg, nv);
    let later = conformance_read(c, conformance_write(c, agg, nv));
    lemma_forwarding_round_trip(sig, item, later, wargs);
}

/// Field isolation: a write through one conformance leaves what any
/// conformance of a different field reads untouched, and a read touches
/// no other field at all.
pub proof fn lemma_field_isolation<V>(
    c1: FieldConformance,
    c2: FieldConformance,
    agg: Map<crate::model::FieldId, V>,
    v: V,
)
    requires
        c1.field != c2.field,
    ensures
        conformance_read(c1, conformance_write(c2, agg, v)) == conformance_read(c1, agg),
{
}

/// Every conformance the wiring generator emits belongs to one declared
/// (field, target) pair: its delegate type is that field's declared
/// type and its accessors reach that field and no other.
pub proof fn lemma_conformance_field_source(
    aggregate: String,
    fields: Seq<FieldDescription>,
    k: int,
)
    requires
        0 <= k < spec_wiring_conformances(aggregate, fields).len(),
    ensures
        exists|i: int, t: int|
            0 <= i < fields.len() && 0 <= t < fields[i].targets@.len()
                && spec_wiring_conformances(aggregate, fields)[k] == (FieldConformance {
                aggregate,
                target: fields[i].targets@[t],
                field: fields[i].ident,
                field_ty: fields[i].ty,
            }),
    decreases fields.len(),
{
    let all = spec_wiring_conformances(aggregate, fields);
    let rest = spec_wiring_conformances(aggregate, fields.drop_last());
    if k < rest.len() {
        lemma_conformance_field_source(aggregate, fields.drop_last(), k);
        let (i, t) = choose|i: int, t: int|
            0 <= i < fields.drop_last().len() && 0 <= t < fields.drop_last()[i].targets@.len()
                && rest[k] == (FieldConformance {
                aggregate,
                target: fields.drop_last()[i].targets@[t],
                field: fields.drop_last()[i].ident,
                field_ty: fields.drop_last()[i].ty,
            });
        assert(fields.drop_last()[i] == fields[i]);
        assert(all[k] == rest[k]);
    } else {
        let i = fields.len() - 1;
        let t = k - rest.len();
        assert(fields.last() == fields[i]);
        assert(all[k] == spec_wiring_conformances(aggregate, fields)[k]);
        assert(0 <= t < fields[i].targets@.len());
    }
}

/// The value a generated constant projection exposes on the wrapper,
/// given the inner type's constants by name.
pub open spec fn projected_const_value<V>(item: ImplItem, inner: Map<Seq<char>, V>) -> Option<V> {
    match item {
        ImplItem::FwdConst { name, .. } => if inner.dom().contains(name@) {
            Some(inner[name@])
        } else {
            None
        },
        _ => None,
    }
}

/// The type a generated associated-type projection exposes on the
/// wrapper, given the inner type's associated types by name.
pub open spec fn projected_type_value<V>(item: ImplItem, inner: Map<Seq<char>, V>) -> Option<V> {
    match item {
        ImplItem::FwdType { name } => if inner.dom().contains(name@) {
            Some(inner[name@])
        } else {
            None
        },
        _ => None,
    }
}

/// Associated constant projection: the wrapper's constant for the
/// interface equals the inner type's constant of the same name, exactly.
pub proof fn lemma_associated_const_projection<V>(
    name: String,
    ty: TypeExpr,
    out: ImplItem,
    mode: GenerationMode,
    inner: Map<Seq<char>, V>,
)
    requires
        spec_item_ok(out, InterfaceItem::Constant { name, ty }, mode),
        inner.dom().contains(name@),
    ensures
        projected_const_value(out, inner) == Some(inner[name@]),
{
}

/// Associated type projection: the wrapper's associated type for the
/// interface equals the inner type's associated type of the same name.
pub proof fn lemma_associated_type_projection<V>(
    name: String,
    out: ImplItem,
    mode: GenerationMode,
    inner: Map<Seq<char>, V>,
)
    requires
        spec_item_ok(out, InterfaceItem::AssociatedType { name }, mode),
        inner.dom().contains(name@),
    ensures
        projected_type_value(out, inner) == Some(inner[name@]),
{
}

/// A failed item's diagnostic is among the collected diagnostics.
pub proof fn lemma_diag_membership(
    items: Seq<InterfaceItem>,
    mode: GenerationMode,
    i: int,
    d: Diagnostic,
)
    requires
        0 <= i < items.len(),
        spec_item_diag(items[i], mode) == Some(d),
    ensures
        spec_diagnostics(items, mode).contains(d),
    decreases items.len(),
{
    let all = spec_diagnostics(items, mode);
    let rest = spec_diagnostics(items.drop_last(), mode);
    if i == items.len() - 1 {
        assert(all.last() == d);
        assert(all.contains(d)) by {
            assert(all[all.len() - 1] == d);
        }
    } else {
        lemma_diag_membership(items.drop_last(), mode, i, d);
        let j = choose|j: int| 0 <= j < rest.len() && rest[j] == d;
        assert(all[j] == d);
    }
}

/// Diagnostic precision: under the mode that requires receivers, a
/// receiver-less interface function yields an error marker in its own
/// position and a diagnostic naming exactly that function, while every
/// sibling item that is not itself rejected still generates normally —
/// in particular every function that has a receiver.
pub proof fn lemma_missing_receiver_diagnostic(
    def: InterfaceDefinition,
    g: Generation,
    sig: FunctionSignature,
    i: int,
)
    requires
        def.wf(),
        0 <= i < def.items@.len(),
        def.items@[i] == InterfaceItem::Function(sig),
        spec_call_target(sig.inputs@) is Static,
        g.items@.len() == def.items@.len(),
        forall|j: int|
            0 <= j < def.items@.len() ==> spec_item_ok(
                #[trigger] g.items@[j],
                def.items@[j],
                GenerationMode::RequireReceiver,
            ),
        g.diagnostics@ == spec_diagnostics(def.items@, GenerationMode::RequireReceiver),
    ensures
        g.items@[i] == (ImplItem::ErrorMarker {
            diagnostic: Diagnostic::MissingReceiver { function: sig.name },
        }),
        g.diagnostics@.contains(Diagnostic::MissingReceiver { function: sig.name }),
        forall|j: int, s: FunctionSignature|
            0 <= j < def.items@.len() && def.items@[j] == InterfaceItem::Function(s) && !(
            spec_call_target(s.inputs@) is Static) ==> spec_fn_item_ok(g.items@[j], s),
{
    lemma_diag_membership(
        def.items@,
        GenerationMode::RequireReceiver,
        i,
        Diagnostic::MissingReceiver { function: sig.name },
    );
    assert forall|j: int, s: FunctionSignature|
        0 <= j < def.items@.len() && def.items@[j] == InterfaceItem::Function(s) && !(
        spec_call_target(s.inputs@) is Static) implies spec_fn_item_ok(g.items@[j], s) by {
        assert(spec_item_ok(g.items@[j], def.items@[j], GenerationMode::RequireReceiver));
    }
}

} // verus!

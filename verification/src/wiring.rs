//! Direct field wiring: for each (field, access interface) pair an
//! aggregate type declares, one direct conformance whose delegate type is
//! the field's declared type and whose three accessors move, borrow or
//! mutably borrow that field. A directive whose argument list does not
//! parse as access-interface names aborts for its field only.

use vstd::prelude::*;
use vstd::string::*;
use crate::model::{AggregateTypeDescription, FieldDescription, FieldId};
use crate::output::{Diagnostic, FieldConformance, WiringOutput};

verus! {

/// Whether a character may open an access-interface name.
pub open spec fn spec_name_start(c: char) -> bool {
    (c as u32 >= 97 && c as u32 <= 122) || (c as u32 >= 65 && c as u32 <= 90) || c == '_'
}

/// Whether a character may appear anywhere in an access-interface name:
/// letters, digits, underscores, path separators, generic-argument
/// brackets, commas and spaces.
pub open spec fn spec_name_char(c: char) -> bool {
    spec_name_start(c) || (c as u32 >= 48 && c as u32 <= 57) || c == ':' || c == '<' || c == '>'
        || c == ',' || c == ' '
}

/// Whether the angle brackets of a name balance from position `i` at
/// nesting depth `depth`: no closing bracket without a matching opening
/// one, and none left open at the end.
pub open spec fn spec_angles_balanced_from(s: Seq<char>, i: int, depth: int) -> bool
    decreases s.len() - i,
{
    if i < 0 || i >= s.len() {
        depth == 0
    } else if s[i] == '<' {
        spec_angles_balanced_from(s, i + 1, depth + 1)
    } else if s[i] == '>' {
        depth > 0 && spec_angles_balanced_from(s, i + 1, depth - 1)
    } else {
        spec_angles_balanced_from(s, i + 1, depth)
    }
}

/// Whether a string parses as the name of an access interface: nonempty,
/// opened by a letter or underscore, made of name characters, with
/// balanced generic-argument brackets.
pub open spec fn spec_valid_target(s: Seq<char>) -> bool {
    &&& s.len() > 0
    &&& spec_name_start(s[0])
    &&& forall|i: int| 0 <= i < s.len() ==> spec_name_char(#[trigger] s[i])
    &&& spec_angles_balanced_from(s, 0, 0)
}

/// Whether every target of a field's wiring directive parses as an
/// access-interface name.
pub open spec fn spec_field_ok(f: FieldDescription) -> bool {
    forall|k: int| 0 <= k < f.targets@.len() ==> spec_valid_target((#[trigger] f.targets@[k])@)
}

/// The conformances one field contributes: one per declared target, in
/// declaration order, or none at all when its directive is malformed.
pub open spec fn spec_field_conformances(aggregate: String, f: FieldDescription) -> Seq<
    FieldConformance,
> {
    if spec_field_ok(f) {
        Seq::new(
            f.targets@.len(),
            |k: int|
                FieldConformance {
                    aggregate,
                    target: f.targets@[k],
                    field: f.ident,
                    field_ty: f.ty,
                },
        )
    } else {
        Seq::empty()
    }
}

/// The conformances of a whole aggregate declaration, field by field.
pub open spec fn spec_wiring_conformances(aggregate: String, fields: Seq<FieldDescription>) -> Seq<
    FieldConformance,
>
    decreases fields.len(),
{
    if fields.len() == 0 {
        Seq::empty()
    } else {
        spec_wiring_conformances(aggregate, fields.drop_last()) + spec_field_conformances(
            aggregate,
            fields.last(),
        )
    }
}

/// The diagnostics of a whole aggregate declaration: one per field whose
/// directive is malformed, in field order.
pub open spec fn spec_wiring_diags(aggregate: String, fields: Seq<FieldDescription>) -> Seq<
    Diagnostic,
>
    decreases fields.len(),
{
    if fields.len() == 0 {
        Seq::empty()
    } else {
        let rest = spec_wiring_diags(aggregate, fields.drop_last());
        if spec_field_ok(fields.last()) {
            rest
        } else {
            rest.push(
                Diagnostic::MalformedWiringArguments { aggregate, field: fields.last().ident },
            )
        }
    }
}

/// Decides whether a string parses as the name of an access interface.
pub fn valid_target(t: &str) -> (r: bool)
    ensures
        r == spec_valid_target(t@),
{
    let n: usize = t.unicode_len();
    if n == 0 {
        return false;
    }
    let c0: char = t.get_char(0);
    if !((c0 as u32 >= 97 && c0 as u32 <= 122) || (c0 as u32 >= 65 && c0 as u32 <= 90) || c0
        == '_') {
        return false;
    }
    let mut depth: usize = 0;
    let mut i: usize = 0;
    while i < n
        invariant
            0 <= i <= n,
            depth <= i,
            n == t@.len(),
            forall|j: int| 0 <= j < i ==> spec_name_char(#[trigger] t@[j]),
            spec_angles_balanced_from(t@, 0, 0) == spec_angles_balanced_from(
                t@,
                i as int,
                depth as int,
            ),
        decreases n - i,
    {
        let c: char = t.get_char(i);
        let u: u32 = c as u32;
        if !((u >= 97 && u <= 122) || (u >= 65 && u <= 90) || c == '_' || (u >= 48 && u <= 57) || c
            == ':' || c == '<' || c == '>' || c == ',' || c == ' ') {
            return false;
        }
        if c == '<' {
            depth = depth + 1;
        } else if c == '>' {
            if depth == 0 {
                proof {
                    assert(!spec_angles_balanced_from(t@, i as int, 0));
                }
                return false;
            }
            depth = depth - 1;
        }
        i += 1;
    }
    depth == 0
}

/// Copies a field identifier.
fn clone_field_id(f: &FieldId) -> (r: FieldId)
    ensures
        r == *f,
{
    match f {
        FieldId::Named(s) => FieldId::Named(s.clone()),
        FieldId::Positional(k) => FieldId::Positional(*k),
    }
}

/// Builds one direct conformance from a standalone wiring directive
/// naming a field, its declared type, the target access interface and
/// the aggregate type, for aggregates declared elsewhere. A target that
/// does not parse as an access-interface name aborts the directive.
pub fn delegate_to_field(field: FieldId, field_ty: String, target: String, aggregate: String) -> (r:
    Result<FieldConformance, Diagnostic>)
    ensures
        spec_valid_target(target@) ==> r == Ok::<FieldConformance, Diagnostic>(
            FieldConformance { aggregate, target, field, field_ty },
        ),
        !spec_valid_target(target@) ==> r == Err::<FieldConformance, Diagnostic>(
            Diagnostic::MalformedWiringArguments { aggregate, field },
        ),
{
    if valid_target(target.as_str()) {
        Ok(FieldConformance { aggregate, target, field, field_ty })
    } else {
        Err(Diagnostic::MalformedWiringArguments { aggregate, field })
    }
}

/// Generates the direct conformances of one aggregate declaration: for
/// every (field, target) pair one conformance of the target access
/// interface, with the delegate type fixed to the field's declared type.
/// A field whose directive is malformed yields a diagnostic and no
/// conformances; the other fields are unaffected.
pub fn delegating_impl(desc: AggregateTypeDescription) -> (w: WiringOutput)
    ensures
        w.conformances@ == spec_wiring_conformances(desc.name, desc.fields@),
        w.diagnostics@ == spec_wiring_diags(desc.name, desc.fields@),
{
    let ghost desc0 = desc;
    let AggregateTypeDescription { name, fields } = desc;
    let n: usize = fields.len();
    let mut confs: Vec<FieldConformance> = Vec::new();
    let mut diags: Vec<Diagnostic> = Vec::new();
    let mut done: usize = 0;
    while done < n
        invariant
            done <= n,
            n == desc0.fields@.len(),
            name == desc0.name,
            fields@ == desc0.fields@,
            confs@ == spec_wiring_conformances(desc0.name, desc0.fields@.take(done as int)),
            diags@ == spec_wiring_diags(desc0.name, desc0.fields@.take(done as int)),
        decreases n - done,
    {
        let f: &FieldDescription = &fields[done];
        let m: usize = f.targets.len();
        let mut all_ok: bool = true;
        let mut k: usize = 0;
        while k < m
            invariant
                0 <= k <= m,
                m == f.targets@.len(),
                all_ok == (forall|j: int|
                    0 <= j < k ==> spec_valid_target((#[trigger] f.targets@[j])@)),
            decreases m - k,
        {
            if !valid_target(f.targets[k].as_str()) {
                all_ok = false;
                proof {
                    assert(!spec_valid_target(f.targets@[k as int]@));
                }
            }
            k += 1;
        }
        proof {
            assert(all_ok == spec_field_ok(*f));
        }
        if all_ok {
            let ghost confs_before = confs@;
            let mut k2: usize = 0;
            while k2 < m
                invariant
                    0 <= k2 <= m,
                    m == f.targets@.len(),
                    *f == desc0.fields@[done as int],
                    done < n == desc0.fields@.len(),
                    name == desc0.name,
                    spec_field_ok(*f),
                    confs@ =~= confs_before + spec_field_conformances(desc0.name, *f).take(
                        k2 as int,
                    ),
                decreases m - k2,
            {
                let c = FieldConformance {
                    aggregate: name.clone(),
                    target: f.targets[k2].clone(),
                    field: clone_field_id(&f.ident),
                    field_ty: f.ty.clone(),
                };
                proof {
                    assert(c == spec_field_conformances(desc0.name, *f)[k2 as int]);
                }
                confs.push(c);
                k2 += 1;
            }
            proof {
                assert(spec_field_conformances(desc0.name, *f).take(m as int)
                    =~= spec_field_conformances(desc0.name, *f));
            }
        } else {
            diags.push(
                Diagnostic::MalformedWiringArguments {
                    aggregate: name.clone(),
                    field: clone_field_id(&f.ident),
                },
            );
        }
        proof {
            let prev = desc0.fields@.take(done as int);
            let cur = desc0.fields@.take(done as int + 1);
            assert(cur.drop_last() =~= prev);
            assert(cur.last() == desc0.fields@[done as int]);
        }
        done += 1;
    }
    proof {
        assert(desc0.fields@.take(n as int) =~= desc0.fields@);
    }
    WiringOutput { conformances: confs, diagnostics: diags }
}

} // verus!

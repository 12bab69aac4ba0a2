//! The command-signature renderer: one rendered string per parameter, in one
//! of three projections (name and type, type only, name only), substituting a
//! group's wrapper type wherever a parameter declares group membership.

use vstd::prelude::*;
use vstd::string::StringExecFns;
use crate::model::{spec_find_group, Binding, Cmd, Registry};

verus! {

/// The type a parameter is rendered with: the qualified wrapper type of its
/// declared group when that group exists in the registry, else its raw type.
pub open spec fn spec_param_ty(b: Binding, r: Registry) -> Seq<char> {
    match b.group {
        Option::Some(g) => match spec_find_group(r.groups@, g@) {
            Option::Some(group) => "enums::"@ + group.ident@,
            Option::None => b.ty@,
        },
        Option::None => b.ty@,
    }
}

/// One parameter's rendering in the selected projection.
pub open spec fn spec_param_entry(
    b: Binding,
    r: Registry,
    with_idents: bool,
    with_types: bool,
) -> Seq<char> {
    if with_idents && with_types {
        b.ident@ + ": "@ + spec_param_ty(b, r)
    } else if with_types {
        spec_param_ty(b, r)
    } else {
        b.ident@
    }
}

/// The whole rendered parameter list of a command, one entry per parameter.
pub open spec fn spec_gen_parameters(
    cmd: Cmd,
    r: Registry,
    with_idents: bool,
    with_types: bool,
) -> Seq<Seq<char>> {
    cmd.params@.map_values(|b: Binding| spec_param_entry(b, r, with_idents, with_types))
}

/// Renders the parameter list of `cmd` in the projection the two flags
/// select. At least one projection flag must be set.
pub fn gen_parameters(cmd: &Cmd, registry: &Registry, with_idents: bool, with_types: bool) -> (r:
    Vec<String>)
    requires
        with_idents || with_types,
    ensures
        r.deep_view() == spec_gen_parameters(*cmd, *registry, with_idents, with_types),
{
    let ghost goal = spec_gen_parameters(*cmd, *registry, with_idents, with_types);
    let mut out: Vec<String> = Vec::new();
    let mut i: usize = 0;
    while i < cmd.params.len()
        invariant
            i <= cmd.params@.len(),
            out@.len() == i,
            forall|j: int| 0 <= j < i ==> out@[j]@ == goal[j],
            goal == spec_gen_parameters(*cmd, *registry, with_idents, with_types),
        decreases cmd.params@.len() - i,
    {
        let b = &cmd.params[i];
        let ty: String = match &b.group {
            Option::Some(g) => match crate::model::find_group(&registry.groups, g) {
                Option::Some(group) => {
                    let mut t = String::new();
                    t.append("enums::");
                    t.append(group.ident.as_str());
                    t
                },
                Option::None => b.ty.clone(),
            },
            Option::None => b.ty.clone(),
        };
        assert(ty@ == spec_param_ty(cmd.params@[i as int], *registry));
        let entry: String = if with_idents && with_types {
            let mut t = b.ident.clone();
            t.append(": ");
            t.append(ty.as_str());
            t
        } else if with_types {
            ty
        } else {
            b.ident.clone()
        };
        assert(entry@ == spec_param_entry(
            cmd.params@[i as int],
            *registry,
            with_idents,
            with_types,
        ));
        out.push(entry);
        i = i + 1;
    }
    proof {
        assert(forall|j: int| 0 <= j < goal.len() ==> out.deep_view()[j] == out@[j]@);
        assert(out.deep_view() =~= goal);
    }
    out
}

/// Parameter-type substitution: a parameter declaring membership in a group
/// that exists in the registry is rendered, in every projection that shows a
/// type, with the group's qualified wrapper type name, not its raw type.
pub proof fn lemma_param_type_substitution(
    cmd: Cmd,
    r: Registry,
    i: int,
    with_idents: bool,
)
    requires
        0 <= i < cmd.params@.len(),
        cmd.params@[i].group is Some,
        spec_find_group(r.groups@, cmd.params@[i].group->Some_0@) is Some,
    ensures
        spec_param_ty(cmd.params@[i], r) == "enums::"@ + spec_find_group(
            r.groups@,
            cmd.params@[i].group->Some_0@,
        )->Some_0.ident@,
        spec_gen_parameters(cmd, r, with_idents, true)[i] == spec_param_entry(
            cmd.params@[i],
            r,
            with_idents,
            true,
        ),
        !with_idents ==> spec_gen_parameters(cmd, r, false, true)[i] == spec_param_ty(
            cmd.params@[i],
            r,
        ),
        with_idents ==> spec_gen_parameters(cmd, r, true, true)[i] == cmd.params@[i].ident@
            + ": "@ + spec_param_ty(cmd.params@[i], r),
{
}

} // verus!

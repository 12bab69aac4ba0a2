//! The generator facade: emits the whole binding module in the fixed
//! eight-stage order — imports header, type aliases, flat constants, the
//! table-entry type, the fatal handler, the table structs, the resolving
//! `impl`, and the constant-group module.

use vstd::prelude::*;
use vstd::string::StringExecFns;
use crate::collab::{enum_item_text, types_module_of};
use crate::groups::{spec_enum_groups_text, write_enum_groups};
use crate::loader::{
    spec_fnptr_struct_text, spec_impl_text, spec_panicking_text, spec_struct_text,
    write_fnptr_struct_def, write_impl, write_panicking_fns, write_struct,
};
use crate::model::{api_tag, Api, Enum, Registry};

verus! {

/// The emitted imports header: the module of external symbols the generated
/// bindings need.
pub open spec fn spec_header_text() -> Seq<char> {
    "
mod __gl_imports {
    pub use std::mem;
    pub use std::marker::Send;
    pub use std::os::raw;
}
"@
}

/// Emits the `__gl_imports` module of external symbols the bindings need.
pub fn write_header(dest: &mut String)
    ensures
        final(dest)@ == old(dest)@ + spec_header_text(),
{
    dest.append(
        "
mod __gl_imports {
    pub use std::mem;
    pub use std::marker::Send;
    pub use std::os::raw;
}
",
    );
}

/// The emitted `types` module: the head, the per-API alias template, and
/// the close.
pub open spec fn spec_type_aliases_text(api: Api) -> Seq<char> {
    "
pub mod types {
    #![allow(non_camel_case_types, non_snake_case, dead_code, missing_copy_implementations)]
"@ + types_module_of(api_tag(api)) + "}\n"@
}

/// Emits the `types` module of per-API type aliases.
pub fn write_type_aliases(registry: &Registry, dest: &mut String)
    ensures
        final(dest)@ == old(dest)@ + spec_type_aliases_text(registry.api),
{
    let ghost base = dest@;
    dest.append(
        "
pub mod types {
    #![allow(non_camel_case_types, non_snake_case, dead_code, missing_copy_implementations)]
",
    );
    let aliases = crate::collab::gen_types_text(&registry.api);
    dest.append(aliases.as_str());
    dest.append("}\n");
    proof {
        assert(dest@ =~= base + spec_type_aliases_text(registry.api));
    }
}

/// The flat constant items, one per enum, in registry order.
pub open spec fn spec_enums_text(enums: Seq<Enum>) -> Seq<char>
    decreases enums.len(),
{
    if enums.len() == 0 {
        Seq::empty()
    } else {
        spec_enums_text(enums.drop_last()) + enum_item_text(
            enums.last().ident@,
            enums.last().ty@,
            enums.last().value@,
            enums.last().cast,
            "types::"@,
        )
    }
}

proof fn lemma_enums_text_step(enums: Seq<Enum>, j: int)
    requires
        0 <= j < enums.len(),
    ensures
        spec_enums_text(enums.take(j + 1)) == spec_enums_text(enums.take(j)) + enum_item_text(
            enums[j].ident@,
            enums[j].ty@,
            enums[j].value@,
            enums[j].cast,
            "types::"@,
        ),
{
    assert(enums.take(j + 1).drop_last() =~= enums.take(j));
    assert(enums.take(j + 1).last() == enums[j]);
}

/// Emits every flat constant item at the root of the bindings.
pub fn write_enums(registry: &Registry, dest: &mut String)
    ensures
        final(dest)@ == old(dest)@ + spec_enums_text(registry.enums@),
{
    let ghost base = dest@;
    let mut i: usize = 0;
    proof {
        assert(spec_enums_text(registry.enums@.take(0)) =~= Seq::<char>::empty());
        assert(base + Seq::<char>::empty() =~= base);
    }
    while i < registry.enums.len()
        invariant
            i <= registry.enums@.len(),
            dest@ == base + spec_enums_text(registry.enums@.take(i as int)),
        decreases registry.enums@.len() - i,
    {
        let item = crate::collab::gen_enum_item_text(&registry.enums[i], "types::");
        dest.append(item.as_str());
        proof {
            lemma_enums_text_step(registry.enums@, i as int);
            assert(dest@ =~= base + spec_enums_text(registry.enums@.take(i as int + 1)));
        }
        i = i + 1;
    }
    proof {
        assert(registry.enums@.take(registry.enums@.len() as int) =~= registry.enums@);
    }
}

/// The whole generated binding module, as a function of the registry alone.
pub open spec fn spec_output(r: Registry) -> Seq<char> {
    spec_header_text() + spec_type_aliases_text(r.api) + spec_enums_text(r.enums@)
        + spec_fnptr_struct_text() + spec_panicking_text(r.api) + spec_struct_text(r)
        + spec_impl_text(r) + spec_enum_groups_text(r)
}

/// Idempotence: the emitted text is a pure function of the registry, so two
/// generation runs from the same registry produce identical output.
pub proof fn lemma_generation_idempotent(r: Registry, out1: Seq<char>, out2: Seq<char>)
    requires
        out1 == spec_output(r),
        out2 == spec_output(r),
    ensures
        out1 == out2,
{
}

/// The generator: writes a complete binding module for one registry.
pub struct StructGenerator;

impl StructGenerator {
    /// Emits the whole binding module for `registry` into `dest`, in the
    /// fixed eight-stage order `spec_output` states.
    pub fn write(&self, registry: &Registry, dest: &mut String)
        ensures
            final(dest)@ == old(dest)@ + spec_output(*registry),
    {
        let ghost base = dest@;
        write_header(dest);
        let ghost acc1 = spec_header_text();
        write_type_aliases(registry, dest);
        proof {
            crate::text::lemma_concat_assoc(base, acc1, spec_type_aliases_text(registry.api));
        }
        let ghost acc2 = acc1 + spec_type_aliases_text(registry.api);
        write_enums(registry, dest);
        proof {
            crate::text::lemma_concat_assoc(base, acc2, spec_enums_text(registry.enums@));
        }
        let ghost acc3 = acc2 + spec_enums_text(registry.enums@);
        write_fnptr_struct_def(dest);
        proof {
            crate::text::lemma_concat_assoc(base, acc3, spec_fnptr_struct_text());
        }
        let ghost acc4 = acc3 + spec_fnptr_struct_text();
        write_panicking_fns(registry, dest);
        proof {
            crate::text::lemma_concat_assoc(base, acc4, spec_panicking_text(registry.api));
        }
        let ghost acc5 = acc4 + spec_panicking_text(registry.api);
        write_struct(registry, dest);
        proof {
            crate::text::lemma_concat_assoc(base, acc5, spec_struct_text(*registry));
        }
        let ghost acc6 = acc5 + spec_struct_text(*registry);
        write_impl(registry, dest);
        proof {
            crate::text::lemma_concat_assoc(base, acc6, spec_impl_text(*registry));
        }
        let ghost acc7 = acc6 + spec_impl_text(*registry);
        write_enum_groups(registry, dest);
        proof {
            crate::text::lemma_concat_assoc(base, acc7, spec_enum_groups_text(*registry));
            assert(dest@ == base + spec_output(*registry));
        }
    }
}

} // verus!

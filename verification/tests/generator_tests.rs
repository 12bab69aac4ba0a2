use gl_typed_enum_generator::groups::{gen_group_constants, render_group_debug, write_group};
use gl_typed_enum_generator::loader::{
    do_metaload, fn_ptr_new, symbol_queries, write_fnptr_struct_def, write_impl,
    write_panicking_fns, write_struct,
};
use gl_typed_enum_generator::model::{AliasEntry, Api, Binding, Cmd, Enum, Group, Registry};
use gl_typed_enum_generator::params::gen_parameters;
use gl_typed_enum_generator::struct_gen::{write_enums, write_header, StructGenerator};

fn mk_enum(ident: &str, value: &str) -> Enum {
    Enum {
        ident: String::from(ident),
        value: String::from(value),
        cast: false,
        ty: String::from("GLenum"),
    }
}

fn mk_cmd(ident: &str, ret: &str, params: Vec<Binding>) -> Cmd {
    Cmd {
        proto: Binding { ident: String::from(ident), ty: String::from(ret), group: None },
        params,
    }
}

fn mk_group(ident: &str, flavor: Option<&str>, members: &[&str]) -> Group {
    Group {
        ident: String::from(ident),
        enums_type: flavor.map(String::from),
        enums: members.iter().map(|m| String::from(*m)).collect(),
    }
}

fn sample_registry() -> Registry {
    Registry {
        api: Api::Gl,
        enums: vec![mk_enum("COLOR_BUFFER_BIT", "0x00004000"), mk_enum("TRUE", "1")],
        cmds: vec![
            mk_cmd(
                "Clear",
                "()",
                vec![Binding {
                    ident: String::from("mask"),
                    ty: String::from("types::GLbitfield"),
                    group: Some(String::from("ClearBufferMask")),
                }],
            ),
            mk_cmd("Flush", "()", vec![]),
        ],
        aliases: vec![AliasEntry {
            ident: String::from("Clear"),
            fallbacks: vec![String::from("ClearEXT")],
        }],
        groups: vec![mk_group(
            "ClearBufferMask",
            Some("bitmask"),
            &["COLOR_BUFFER_BIT", "COLOR_BUFFER_BIT", "MISSING_BIT"],
        )],
    }
}

#[test]
fn partitioner_dedups_and_drops_dangling() {
    let r = sample_registry();
    let g = mk_group("G", None, &["TRUE", "COLOR_BUFFER_BIT", "TRUE", "ABSENT"]);
    let consts = gen_group_constants(&g, &r);
    let names: Vec<&str> = consts.iter().map(|c| c.ident.as_str()).collect();
    let values: Vec<&str> = consts.iter().map(|c| c.value.as_str()).collect();
    assert_eq!(names, vec!["TRUE", "COLOR_BUFFER_BIT"]);
    assert_eq!(values, vec!["1", "0x00004000"]);
}

#[test]
fn partitioner_keeps_declaration_order() {
    let mut r = sample_registry();
    r.enums = vec![mk_enum("B", "2"), mk_enum("A", "1")];
    let g = mk_group("G", None, &["A", "B"]);
    let consts = gen_group_constants(&g, &r);
    let names: Vec<&str> = consts.iter().map(|c| c.ident.as_str()).collect();
    assert_eq!(names, vec!["A", "B"]);
}

#[test]
fn partitioner_keeps_distinct_names_with_equal_values() {
    // true aliases: two identifiers sharing one raw value both stay
    let mut r = sample_registry();
    r.enums = vec![mk_enum("A", "1"), mk_enum("A2", "1")];
    let g = mk_group("G", None, &["A", "A2"]);
    let consts = gen_group_constants(&g, &r);
    let names: Vec<&str> = consts.iter().map(|c| c.ident.as_str()).collect();
    assert_eq!(names, vec!["A", "A2"]);
}

#[test]
fn partitioner_empty_group() {
    let r = sample_registry();
    let g = mk_group("G", None, &[]);
    assert_eq!(gen_group_constants(&g, &r).len(), 0);
}

#[test]
fn resolution_fallback_order() {
    // primary fails, first fallback fails, second fallback resolves
    let answers: Vec<u64> = vec![0, 0, 7];
    let (addr, queried) = do_metaload(&answers);
    assert_eq!(addr, 7);
    assert_eq!(queried, 3);
    let entry = fn_ptr_new(addr, 99);
    assert!(entry.is_loaded);
    assert_eq!(entry.f, 7);
}

#[test]
fn resolution_stops_at_first_success() {
    // names beyond the first success are never queried
    let answers: Vec<u64> = vec![0, 5, 7, 11];
    let (addr, queried) = do_metaload(&answers);
    assert_eq!(addr, 5);
    assert_eq!(queried, 2);
}

#[test]
fn resolution_total_failure_binds_sentinel() {
    let answers: Vec<u64> = vec![0, 0, 0];
    let (addr, queried) = do_metaload(&answers);
    assert_eq!(addr, 0);
    assert_eq!(queried, 3);
    let entry = fn_ptr_new(addr, 99);
    assert!(!entry.is_loaded);
    assert_eq!(entry.f, 99);
}

#[test]
fn symbol_queries_primary_then_fallbacks() {
    let qs = symbol_queries(
        &Api::Gl,
        &String::from("Clear"),
        &vec![String::from("ClearEXT"), String::from("ClearARB")],
    );
    let qs: Vec<&str> = qs.iter().map(|s| s.as_str()).collect();
    assert_eq!(qs, vec!["glClear", "glClearEXT", "glClearARB"]);
}

#[test]
fn symbol_queries_other_prefixes() {
    let qs = symbol_queries(&Api::Glx, &String::from("SwapBuffers"), &vec![]);
    assert_eq!(qs[0].as_str(), "glXSwapBuffers");
    let qs = symbol_queries(&Api::Egl, &String::from("SwapBuffers"), &vec![]);
    assert_eq!(qs[0].as_str(), "eglSwapBuffers");
}

#[test]
fn debug_rendering_named_and_raw() {
    let consts = vec![
        gl_typed_enum_generator::groups::ConstEntry {
            ident: String::from("A"),
            value: String::from("1"),
        },
        gl_typed_enum_generator::groups::ConstEntry {
            ident: String::from("B"),
            value: String::from("2"),
        },
    ];
    let name = String::from("Group");
    assert_eq!(render_group_debug(&name, &consts, &String::from("1")), "Group(A)");
    assert_eq!(render_group_debug(&name, &consts, &String::from("2")), "Group(B)");
    assert_eq!(render_group_debug(&name, &consts, &String::from("99")), "Group(99)");
}

#[test]
fn debug_rendering_alias_values_first_match_wins() {
    // two distinct constants with the same raw value: the first one names it
    let consts = vec![
        gl_typed_enum_generator::groups::ConstEntry {
            ident: String::from("A"),
            value: String::from("1"),
        },
        gl_typed_enum_generator::groups::ConstEntry {
            ident: String::from("A2"),
            value: String::from("1"),
        },
    ];
    let name = String::from("G");
    assert_eq!(render_group_debug(&name, &consts, &String::from("1")), "G(A)");
}

#[test]
fn bitmask_group_emits_empty_constant() {
    let r = sample_registry();
    let mut out = String::new();
    write_group(&r.groups[0], &r, &mut out);
    // zero is not in the member list, yet Empty is emitted with value zero
    assert!(out.contains(
        "pub const Empty: ClearBufferMask = ClearBufferMask(0);"
    ));
    // both named constants and the bitmask hook are present
    assert!(out.contains(
        "pub const COLOR_BUFFER_BIT: ClearBufferMask = ClearBufferMask(super::COLOR_BUFFER_BIT);"
    ));
    assert!(out.contains("impl_enum_traits!(ClearBufferMask);"));
    assert!(out.contains("impl_enum_bitmask_traits!(ClearBufferMask);"));
}

#[test]
fn plain_group_has_no_empty_constant() {
    let mut r = sample_registry();
    r.groups = vec![mk_group("Plain", None, &["TRUE"])];
    let mut out = String::new();
    write_group(&r.groups[0], &r, &mut out);
    assert!(!out.contains("pub const Empty"));
    assert!(!out.contains("impl_enum_bitmask_traits!(Plain);"));
    assert!(out.contains("impl_enum_traits!(Plain);"));
}

#[test]
fn boolean_group_uses_boolean_repr() {
    let mut r = sample_registry();
    r.groups = vec![mk_group("Boolean", None, &["TRUE"])];
    let mut out = String::new();
    write_group(&r.groups[0], &r, &mut out);
    assert!(out.contains("pub struct Boolean(pub types::GLboolean);"));
    let mut out2 = String::new();
    write_group(&mk_group("Other", None, &[]), &r, &mut out2);
    assert!(out2.contains("pub struct Other(pub types::GLenum);"));
}

#[test]
fn group_debug_rule_text() {
    let mut r = sample_registry();
    r.groups = vec![mk_group("G", None, &["TRUE"])];
    let mut out = String::new();
    write_group(&r.groups[0], &r, &mut out);
    assert!(out.contains("impl ::std::fmt::Debug for G {"));
    assert!(out.contains("G::TRUE => write!(fmt, \"G(TRUE)\"),"));
    assert!(out.contains("_ => write!(fmt, \"G({})\", self.0),"));
}

#[test]
fn parameters_substitute_group_wrapper_type() {
    let r = sample_registry();
    let cmd = &r.cmds[0];
    // identifier-with-type projection
    let both = gen_parameters(cmd, &r, true, true);
    assert_eq!(both, vec![String::from("mask: enums::ClearBufferMask")]);
    // type-only projection
    let tys = gen_parameters(cmd, &r, false, true);
    assert_eq!(tys, vec![String::from("enums::ClearBufferMask")]);
    // identifier-only projection carries no type token
    let ids = gen_parameters(cmd, &r, true, false);
    assert_eq!(ids, vec![String::from("mask")]);
}

#[test]
fn parameters_keep_raw_type_without_group() {
    let mut r = sample_registry();
    r.cmds[0].params[0].group = None;
    let tys = gen_parameters(&r.cmds[0], &r, false, true);
    assert_eq!(tys, vec![String::from("types::GLbitfield")]);
}

#[test]
fn parameters_keep_raw_type_on_dangling_group() {
    let mut r = sample_registry();
    r.cmds[0].params[0].group = Some(String::from("NoSuchGroup"));
    let tys = gen_parameters(&r.cmds[0], &r, false, true);
    assert_eq!(tys, vec![String::from("types::GLbitfield")]);
}

#[test]
fn table_has_one_field_per_command() {
    let r = sample_registry();
    let mut out = String::new();
    write_struct(&r, &mut out);
    assert_eq!(out.matches("pub Clear: FnPtr,").count(), 1);
    assert_eq!(out.matches("pub Flush: FnPtr,").count(), 1);
    assert!(out.contains("/// Fallbacks: ClearEXT"));
    assert!(out.contains("pub struct GlFnPtrs {"));
    assert!(out.contains("pub ptrs: GlFnPtrs,"));
}

#[test]
fn impl_loads_primary_then_fallbacks() {
    let r = sample_registry();
    let mut out = String::new();
    write_impl(&r, &mut out);
    assert!(out.contains("Clear: FnPtr::new(metaloadfn(\"glClear\", &[\"glClearEXT\"])),"));
    assert!(out.contains("Flush: FnPtr::new(metaloadfn(\"glFlush\", &[])),"));
    assert!(out.contains("pub fn load_with<F>(mut loadfn: F) -> Gl"));
    assert!(out.contains("unsafe impl __gl_imports::Send for Gl {}"));
}

#[test]
fn impl_methods_use_three_projections() {
    let r = sample_registry();
    let mut out = String::new();
    write_impl(&r, &mut out);
    assert!(out.contains("pub unsafe fn Clear(&self, mask: enums::ClearBufferMask) -> ()"));
    assert!(out.contains("fn(enums::ClearBufferMask) -> ()>(self.ptrs.Clear.f)(mask)"));
}

#[test]
fn panicking_fn_names_the_api() {
    let r = sample_registry();
    let mut out = String::new();
    write_panicking_fns(&r, &mut out);
    assert!(out.contains("panic!(\"gl function was not loaded\")"));
    let mut r2 = sample_registry();
    r2.api = Api::Egl;
    let mut out2 = String::new();
    write_panicking_fns(&r2, &mut out2);
    assert!(out2.contains("panic!(\"egl function was not loaded\")"));
}

#[test]
fn enum_items_are_emitted_in_order() {
    let r = sample_registry();
    let mut out = String::new();
    write_enums(&r, &mut out);
    let first = out.find("pub const COLOR_BUFFER_BIT: types::GLenum = 0x00004000;").unwrap();
    let second = out.find("pub const TRUE: types::GLenum = 1;").unwrap();
    assert!(first < second);
}

#[test]
fn enum_item_cast_and_string_type() {
    let mut r = sample_registry();
    r.enums = vec![
        Enum {
            ident: String::from("X"),
            value: String::from("5"),
            cast: true,
            ty: String::from("GLenum"),
        },
        Enum {
            ident: String::from("NAME"),
            value: String::from("\"abc\""),
            cast: false,
            ty: String::from("&'static str"),
        },
    ];
    let mut out = String::new();
    write_enums(&r, &mut out);
    assert!(out.contains("pub const X: types::GLenum = 5 as types::GLenum;"));
    // a string-typed constant drops the types prefix in the type position
    assert!(out.contains("pub const NAME: &'static str = \"abc\";"));
}

#[test]
fn header_and_fnptr_def_are_fixed() {
    let mut out = String::new();
    write_header(&mut out);
    assert!(out.contains("mod __gl_imports {"));
    assert!(out.contains("pub use std::os::raw;"));
    let mut out2 = String::new();
    write_fnptr_struct_def(&mut out2);
    assert!(out2.contains("pub struct FnPtr {"));
    assert!(out2.contains("pub fn is_loaded(&self) -> bool {"));
}

#[test]
fn generation_is_idempotent() {
    let r = sample_registry();
    let gen = StructGenerator;
    let mut out1 = String::new();
    gen.write(&r, &mut out1);
    let mut out2 = String::new();
    gen.write(&r, &mut out2);
    assert_eq!(out1, out2);
    assert_eq!(out1.as_bytes(), out2.as_bytes());
}

#[test]
fn full_output_has_all_stages_in_order() {
    let r = sample_registry();
    let gen = StructGenerator;
    let mut out = String::new();
    gen.write(&r, &mut out);
    let header = out.find("mod __gl_imports {").unwrap();
    let types = out.find("pub mod types {").unwrap();
    let enums = out.find("pub const COLOR_BUFFER_BIT").unwrap();
    let fnptr = out.find("pub struct FnPtr {").unwrap();
    let panicking = out.find("fn missing_fn_panic()").unwrap();
    let table = out.find("pub struct GlFnPtrs {").unwrap();
    let imp = out.find("impl Gl {").unwrap();
    let groups = out.find("pub mod enums {").unwrap();
    assert!(header < types);
    assert!(types < enums);
    assert!(enums < fnptr);
    assert!(fnptr < panicking);
    assert!(panicking < table);
    assert!(table < imp);
    assert!(imp < groups);
}

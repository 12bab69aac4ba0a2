//! The loader: the function-pointer table entry model with its
//! fallback-aware resolution rule, and the emitters for the table type, the
//! fatal missing-symbol handler, the table struct, and the resolving `impl`.

use vstd::prelude::*;
use vstd::string::StringExecFns;
use crate::collab::{api_name_of, struct_name_of, symbol_prefix_of};
use crate::model::{spec_find_aliases, Api, Cmd, Registry};
use crate::params::spec_gen_parameters;
use crate::text::{spec_join};

verus! {

/// One entry of the generated function-pointer table, as the emitted code
/// builds it: an address (zero stands for a null lookup answer) and a
/// load-success flag. An unloaded entry holds the fatal sentinel handler's
/// address, so invoking it fails loudly instead of jumping into garbage.
#[derive(Clone, Copy, PartialEq, Eq, Structural, Debug)]
pub struct FnPtr {
    pub f: u64,
    pub is_loaded: bool,
}

/// Builds a table entry from one resolution outcome, as the emitted
/// `FnPtr::new` does: a null address binds the entry to the sentinel
/// handler, unloaded; anything else is kept, loaded.
pub fn fn_ptr_new(ptr: u64, sentinel: u64) -> (r: FnPtr)
    ensures
        ptr != 0 ==> r == (FnPtr { f: ptr, is_loaded: true }),
        ptr == 0 ==> r == (FnPtr { f: sentinel, is_loaded: false }),
{
    if ptr == 0 {
        FnPtr { f: sentinel, is_loaded: false }
    } else {
        FnPtr { f: ptr, is_loaded: true }
    }
}

/// The address the resolution rule settles on, given the resolver's answer
/// to each symbol name in query order: the first non-null answer, or null
/// when every name failed.
pub open spec fn spec_resolve(answers: Seq<u64>) -> u64
    decreases answers.len(),
{
    if answers.len() == 0 {
        0
    } else if answers[0] != 0 {
        answers[0]
    } else {
        spec_resolve(answers.drop_first())
    }
}

/// How many names the resolution rule queries: every name up to and
/// including the first success, and all of them on total failure.
pub open spec fn spec_queries_made(answers: Seq<u64>) -> int
    decreases answers.len(),
{
    if answers.len() == 0 {
        0int
    } else if answers[0] != 0 {
        1int
    } else {
        1 + spec_queries_made(answers.drop_first())
    }
}

/// Runs the resolution rule of the emitted loader over the resolver's
/// answers, in query order: returns the address settled on and how many
/// names were queried; querying stops at the first success.
pub fn do_metaload(answers: &Vec<u64>) -> (r: (u64, usize))
    ensures
        r.0 == spec_resolve(answers@),
        r.1 == spec_queries_made(answers@),
{
    let mut i: usize = 0;
    proof {
        assert(answers@.skip(0) =~= answers@);
    }
    while i < answers.len()
        invariant
            i <= answers@.len(),
            forall|j: int| 0 <= j < i ==> answers@[j] == 0,
            spec_resolve(answers@) == spec_resolve(answers@.skip(i as int)),
            spec_queries_made(answers@) == i + spec_queries_made(answers@.skip(i as int)),
        decreases answers@.len() - i,
    {
        proof {
            assert(answers@.skip(i as int)[0] == answers@[i as int]);
            assert(answers@.skip(i as int).drop_first() =~= answers@.skip(i as int + 1));
        }
        if answers[i] != 0 {
            return (answers[i], i + 1);
        }
        i = i + 1;
    }
    proof {
        assert(answers@.skip(answers@.len() as int) =~= Seq::<u64>::empty());
    }
    (0, answers.len())
}

/// Resolution order: when every name before position `k` fails and the name
/// at `k` resolves, the rule settles on exactly that address, and no name
/// beyond `k` is ever queried.
pub proof fn lemma_resolution_first_success(answers: Seq<u64>, k: int)
    requires
        0 <= k < answers.len(),
        forall|i: int| 0 <= i < k ==> answers[i] == 0,
        answers[k] != 0,
    ensures
        spec_resolve(answers) == answers[k],
        spec_queries_made(answers) == k + 1,
    decreases k,
{
    if k > 0 {
        assert(answers.drop_first()[k - 1] == answers[k]);
        assert(forall|i: int| 0 <= i < k - 1 ==> answers.drop_first()[i] == answers[i + 1]);
        lemma_resolution_first_success(answers.drop_first(), k - 1);
    }
}

/// Total failure: when every name fails, the rule settles on the null
/// address after querying each name once, and the resulting table entry is
/// unloaded and bound to the fatal sentinel handler.
pub proof fn lemma_resolution_total_failure(answers: Seq<u64>)
    requires
        forall|i: int| 0 <= i < answers.len() ==> answers[i] == 0,
    ensures
        spec_resolve(answers) == 0,
        spec_queries_made(answers) == answers.len(),
    decreases answers.len(),
{
    if answers.len() > 0 {
        assert(forall|i: int|
            0 <= i < answers.drop_first().len() ==> answers.drop_first()[i] == answers[i + 1]);
        lemma_resolution_total_failure(answers.drop_first());
    }
}

/// The ordered symbol names the loader tries for one command: the command's
/// own symbol first, then each fallback's, in declaration order.
pub open spec fn spec_symbol_queries(api: Api, ident: Seq<char>, fallbacks: Seq<Seq<char>>) -> Seq<
    Seq<char>,
> {
    seq![symbol_prefix_of(api) + ident] + fallbacks.map_values(
        |f: Seq<char>| symbol_prefix_of(api) + f,
    )
}

/// Builds the loader's query list for one command, matching
/// `spec_symbol_queries`: the primary symbol name, then the fallback
/// symbol names in declaration order.
pub fn symbol_queries(api: &Api, ident: &String, fallbacks: &Vec<String>) -> (r: Vec<String>)
    ensures
        r.deep_view() == spec_symbol_queries(*api, ident@, fallbacks.deep_view()),
{
    let ghost goal = spec_symbol_queries(*api, ident@, fallbacks.deep_view());
    let mut out: Vec<String> = Vec::new();
    out.push(crate::collab::gen_symbol_name(api, ident.as_str()));
    let mut i: usize = 0;
    while i < fallbacks.len()
        invariant
            i <= fallbacks@.len(),
            goal == spec_symbol_queries(*api, ident@, fallbacks.deep_view()),
            goal.len() == 1 + fallbacks@.len(),
            out@.len() == i + 1,
            forall|j: int| 0 <= j < i + 1 ==> out@[j]@ == goal[j],
        decreases fallbacks@.len() - i,
    {
        out.push(crate::collab::gen_symbol_name(api, fallbacks[i].as_str()));
        proof {
            assert(fallbacks.deep_view()[i as int] == fallbacks@[i as int]@);
        }
        i = i + 1;
    }
    proof {
        assert(forall|j: int| 0 <= j < goal.len() ==> out.deep_view()[j] == out@[j]@);
        assert(out.deep_view() =~= goal);
    }
    out
}

/// The field names of the emitted function-pointer table, one per command,
/// in registry order.
pub open spec fn spec_table_fields(r: Registry) -> Seq<Seq<char>> {
    r.cmds@.map_values(|c: Cmd| c.proto.ident@)
}

/// Every command identifier appears exactly once as a field of the emitted
/// function-pointer table: one field per command, in order, and in a
/// well-formed registry no two fields share a name.
pub proof fn lemma_table_fields_exactly_once(r: Registry)
    requires
        r.wf(),
    ensures
        spec_table_fields(r).len() == r.cmds@.len(),
        forall|i: int|
            0 <= i < r.cmds@.len() ==> spec_table_fields(r)[i] == r.cmds@[i].proto.ident@,
        forall|i: int, j: int|
            0 <= i < j < spec_table_fields(r).len() ==> spec_table_fields(r)[i]
                != spec_table_fields(r)[j],
{
}

/// The emitted text of the table-entry type and its constructor.
pub open spec fn spec_fnptr_struct_text() -> Seq<char> {
    "
#[allow(dead_code, missing_copy_implementations)]
#[derive(Clone)]
pub struct FnPtr {
    /// The function pointer that will be used when calling the function.
    f: *const __gl_imports::raw::c_void,
    /// True if the pointer points to a real function, false if points to a `panic!` fn.
    is_loaded: bool,
}

impl FnPtr {
    /// Creates a `FnPtr` from a load attempt.
    fn new(ptr: *const __gl_imports::raw::c_void) -> FnPtr {
        if ptr.is_null() {
            FnPtr {
                f: missing_fn_panic as *const __gl_imports::raw::c_void,
                is_loaded: false
            }
        } else {
            FnPtr { f: ptr, is_loaded: true }
        }
    }

    /// Returns `true` if the function has been successfully loaded.
    ///
    /// If it returns `false`, calling the corresponding function will fail.
    #[inline]
    #[allow(dead_code)]
    pub fn is_loaded(&self) -> bool {
        self.is_loaded
    }
}
"@
}

/// Emits the table-entry type: the store for a single binding, with its
/// address, its load flag, and its `is_loaded` probe.
pub fn write_fnptr_struct_def(dest: &mut String)
    ensures
        final(dest)@ == old(dest)@ + spec_fnptr_struct_text(),
{
    dest.append(
        "
#[allow(dead_code, missing_copy_implementations)]
#[derive(Clone)]
pub struct FnPtr {
    /// The function pointer that will be used when calling the function.
    f: *const __gl_imports::raw::c_void,
    /// True if the pointer points to a real function, false if points to a `panic!` fn.
    is_loaded: bool,
}

impl FnPtr {
    /// Creates a `FnPtr` from a load attempt.
    fn new(ptr: *const __gl_imports::raw::c_void) -> FnPtr {
        if ptr.is_null() {
            FnPtr {
                f: missing_fn_panic as *const __gl_imports::raw::c_void,
                is_loaded: false
            }
        } else {
            FnPtr { f: ptr, is_loaded: true }
        }
    }

    /// Returns `true` if the function has been successfully loaded.
    ///
    /// If it returns `false`, calling the corresponding function will fail.
    #[inline]
    #[allow(dead_code)]
    pub fn is_loaded(&self) -> bool {
        self.is_loaded
    }
}
",
    );
}

/// The emitted text of the fatal missing-symbol handler.
pub open spec fn spec_panicking_text(api: Api) -> Seq<char> {
    "#[inline(never)]
fn missing_fn_panic() -> ! {
    panic!(\""@ + api_name_of(api) + " function was not loaded\")
}
"@
}

/// Emits the fatal handler every unresolved table entry is bound to.
pub fn write_panicking_fns(registry: &Registry, dest: &mut String)
    ensures
        final(dest)@ == old(dest)@ + spec_panicking_text(registry.api),
{
    let ghost base = dest@;
    dest.append(
        "#[inline(never)]
fn missing_fn_panic() -> ! {
    panic!(\"",
    );
    let name = crate::collab::api_display_name(&registry.api);
    dest.append(name.as_str());
    dest.append(
        " function was not loaded\")
}
",
    );
    proof {
        assert(dest@ =~= base + spec_panicking_text(registry.api));
    }
}

/// The emitted text of one table field: an optional fallback-list doc line,
/// then the field itself, named after the command.
pub open spec fn spec_field_text(r: Registry, c: Cmd) -> Seq<char> {
    (match spec_find_aliases(r.aliases@, c.proto.ident@) {
        Option::Some(a) => "/// Fallbacks: "@ + spec_join(a.fallbacks.deep_view(), ", "@) + "\n"@,
        Option::None => Seq::<char>::empty(),
    }) + "pub "@ + c.proto.ident@ + ": FnPtr,\n"@
}

/// The table field lines, one per command, in registry order.
pub open spec fn spec_field_lines(r: Registry, cmds: Seq<Cmd>) -> Seq<char>
    decreases cmds.len(),
{
    if cmds.len() == 0 {
        Seq::empty()
    } else {
        spec_field_lines(r, cmds.drop_last()) + spec_field_text(r, cmds.last())
    }
}

proof fn lemma_field_lines_step(r: Registry, cmds: Seq<Cmd>, j: int)
    requires
        0 <= j < cmds.len(),
    ensures
        spec_field_lines(r, cmds.take(j + 1)) == spec_field_lines(r, cmds.take(j))
            + spec_field_text(r, cmds[j]),
{
    assert(cmds.take(j + 1).drop_last() =~= cmds.take(j));
    assert(cmds.take(j + 1).last() == cmds[j]);
}

/// The emitted text of the two table structs: the raw pointer table, and
/// the public binding struct wrapping it.
pub open spec fn spec_struct_text(r: Registry) -> Seq<char> {
    "
#[allow(non_camel_case_types, non_snake_case, dead_code)]
#[derive(Clone)]
pub struct "@ + struct_name_of(r.api) + "FnPtrs {\n"@ + spec_field_lines(r, r.cmds@) + "}\n\n"@
        + "
#[allow(non_camel_case_types, non_snake_case, dead_code)]
#[derive(Clone)]
pub struct "@ + struct_name_of(r.api) + " {
    pub ptrs: "@ + struct_name_of(r.api) + "FnPtrs,
    _priv: (),
}

"@
}

/// Emits the function-pointer table struct, one field per command, and the
/// binding struct that carries it.
#[verifier::rlimit(50)]
pub fn write_struct(registry: &Registry, dest: &mut String)
    ensures
        final(dest)@ == old(dest)@ + spec_struct_text(*registry),
{
    let ghost base = dest@;
    let name = crate::collab::gen_struct_name(&registry.api);
    dest.append(
        "
#[allow(non_camel_case_types, non_snake_case, dead_code)]
#[derive(Clone)]
pub struct ",
    );
    dest.append(name.as_str());
    dest.append("FnPtrs {\n");
    let ghost acc1 = "
#[allow(non_camel_case_types, non_snake_case, dead_code)]
#[derive(Clone)]
pub struct "@ + struct_name_of(registry.api) + "FnPtrs {\n"@;
    assert(dest@ == base + acc1);
    let ghost head = dest@;
    let mut i: usize = 0;
    proof {
        assert(spec_field_lines(*registry, registry.cmds@.take(0)) =~= Seq::<char>::empty());
        assert(head + Seq::<char>::empty() =~= head);
    }
    while i < registry.cmds.len()
        invariant
            i <= registry.cmds@.len(),
            dest@ == head + spec_field_lines(*registry, registry.cmds@.take(i as int)),
        decreases registry.cmds@.len() - i,
    {
        let ghost before = dest@;
        let cmd = &registry.cmds[i];
        match crate::model::find_aliases(&registry.aliases, &cmd.proto.ident) {
            Option::Some(a) => {
                dest.append("/// Fallbacks: ");
                let joined = crate::text::join(&a.fallbacks, ", ");
                dest.append(joined.as_str());
                dest.append("\n");
            },
            Option::None => {},
        }
        dest.append("pub ");
        dest.append(cmd.proto.ident.as_str());
        dest.append(": FnPtr,\n");
        proof {
            assert(dest@ =~= before + spec_field_text(*registry, registry.cmds@[i as int]));
            lemma_field_lines_step(*registry, registry.cmds@, i as int);
            assert(dest@ =~= head + spec_field_lines(
                *registry,
                registry.cmds@.take(i as int + 1),
            ));
        }
        i = i + 1;
    }
    proof {
        assert(registry.cmds@.take(registry.cmds@.len() as int) =~= registry.cmds@);
        crate::text::lemma_concat_assoc(
            base,
            acc1,
            spec_field_lines(*registry, registry.cmds@),
        );
    }
    let ghost acc2 = acc1 + spec_field_lines(*registry, registry.cmds@);
    let ghost c2 = dest@;
    dest.append("}\n\n");
    dest.append(
        "
#[allow(non_camel_case_types, non_snake_case, dead_code)]
#[derive(Clone)]
pub struct ",
    );
    dest.append(name.as_str());
    dest.append(
        " {
    pub ptrs: ",
    );
    dest.append(name.as_str());
    dest.append(
        "FnPtrs,
    _priv: (),
}

",
    );
    proof {
        assert(dest@ =~= c2 + ("}\n\n"@ + "
#[allow(non_camel_case_types, non_snake_case, dead_code)]
#[derive(Clone)]
pub struct "@ + struct_name_of(registry.api) + " {
    pub ptrs: "@ + struct_name_of(registry.api) + "FnPtrs,
    _priv: (),
}

"@));
        crate::text::lemma_concat_assoc(base, acc2, "}\n\n"@ + "
#[allow(non_camel_case_types, non_snake_case, dead_code)]
#[derive(Clone)]
pub struct "@ + struct_name_of(registry.api) + " {
    pub ptrs: "@ + struct_name_of(registry.api) + "FnPtrs,
    _priv: (),
}

"@);
        assert((acc2 + ("}\n\n"@ + "
#[allow(non_camel_case_types, non_snake_case, dead_code)]
#[derive(Clone)]
pub struct "@ + struct_name_of(registry.api) + " {
    pub ptrs: "@ + struct_name_of(registry.api) + "FnPtrs,
    _priv: (),
}

"@)) =~= spec_struct_text(*registry));
    }
}

/// The opening of the emitted resolving `impl`: the public `load_with`
/// entry point and the head of the eager table-filling routine.
pub open spec fn spec_impl_head(name: Seq<char>) -> Seq<char> {
    "impl "@ + name + " {
    /// Load each OpenGL symbol using a custom load function. This allows for the
    /// use of functions like `glfwGetProcAddress` or `SDL_GL_GetProcAddress`.
    ///
    /// ~~~ignore
    /// let gl = Gl::load_with(|s| glfw.get_proc_address(s));
    /// ~~~
    #[allow(dead_code, unused_variables)]
    pub fn load_with<F>(mut loadfn: F) -> "@ + name
        + " where F: FnMut(&'static str) -> *const __gl_imports::raw::c_void {
        #[inline(never)]
        fn do_metaloadfn(loadfn: &mut FnMut(&'static str) -> *const __gl_imports::raw::c_void,
                         symbol: &'static str,
                         symbols: &[&'static str])
                         -> *const __gl_imports::raw::c_void {
            let mut ptr = loadfn(symbol);
            if ptr.is_null() {
                for &sym in symbols {
                    ptr = loadfn(sym);
                    if !ptr.is_null() { break; }
                }
            }
            ptr
        }
        let mut metaloadfn = |symbol: &'static str, symbols: &[&'static str]| {
            do_metaloadfn(&mut loadfn, symbol, symbols)
        };
        "@ + name + "::load_with_metaloadfn(&mut metaloadfn)
    }

    #[inline(never)]
    fn load_with_metaloadfn(metaloadfn: &mut FnMut(&'static str, &[&'static str]) -> *const __gl_imports::raw::c_void) -> "@
        + name + " {
        "@ + name + " {
            ptrs: "@ + name + "FnPtrs {\n"@
}

/// The quoted fallback symbol names of one command, comma-joined; empty for
/// a command with no fallbacks.
pub open spec fn spec_fallback_syms(r: Registry, c: Cmd) -> Seq<char> {
    match spec_find_aliases(r.aliases@, c.proto.ident@) {
        Option::Some(a) => spec_join(
            a.fallbacks.deep_view().map_values(
                |f: Seq<char>| "\""@ + symbol_prefix_of(r.api) + f + "\""@,
            ),
            ", "@,
        ),
        Option::None => Seq::<char>::empty(),
    }
}

/// One emitted table-filling line: the entry built from the resolver's
/// answer for the primary symbol name, then each fallback symbol name.
pub open spec fn spec_load_line(r: Registry, c: Cmd) -> Seq<char> {
    c.proto.ident@ + ": FnPtr::new(metaloadfn(\""@ + (symbol_prefix_of(r.api) + c.proto.ident@)
        + "\", &["@ + spec_fallback_syms(r, c) + "])),\n"@
}

/// The table-filling lines, one per command, in registry order.
pub open spec fn spec_load_lines(r: Registry, cmds: Seq<Cmd>) -> Seq<char>
    decreases cmds.len(),
{
    if cmds.len() == 0 {
        Seq::empty()
    } else {
        spec_load_lines(r, cmds.drop_last()) + spec_load_line(r, cmds.last())
    }
}

proof fn lemma_load_lines_step(r: Registry, cmds: Seq<Cmd>, j: int)
    requires
        0 <= j < cmds.len(),
    ensures
        spec_load_lines(r, cmds.take(j + 1)) == spec_load_lines(r, cmds.take(j)) + spec_load_line(
            r,
            cmds[j],
        ),
{
    assert(cmds.take(j + 1).drop_last() =~= cmds.take(j));
    assert(cmds.take(j + 1).last() == cmds[j]);
}

/// One emitted wrapper method: the command's parameters in the three
/// projections, around the cast-and-forward invocation body.
pub open spec fn spec_method_line(r: Registry, c: Cmd) -> Seq<char> {
    "    #[allow(non_snake_case, unused_variables, dead_code)]
    #[inline] pub unsafe fn "@ + c.proto.ident@ + "(&self, "@ + spec_join(
        spec_gen_parameters(c, r, true, true),
        ", "@,
    ) + ") -> "@ + c.proto.ty@ + " { __gl_imports::mem::transmute::<_, extern \"system\" fn("@
        + spec_join(spec_gen_parameters(c, r, false, true), ", "@) + ") -> "@ + c.proto.ty@
        + ">(self.ptrs."@ + c.proto.ident@ + ".f)("@ + spec_join(
        spec_gen_parameters(c, r, true, false),
        ", "@,
    ) + ") }\n"@
}

/// The wrapper methods, one per command, in registry order.
pub open spec fn spec_method_lines(r: Registry, cmds: Seq<Cmd>) -> Seq<char>
    decreases cmds.len(),
{
    if cmds.len() == 0 {
        Seq::empty()
    } else {
        spec_method_lines(r, cmds.drop_last()) + spec_method_line(r, cmds.last())
    }
}

proof fn lemma_method_lines_step(r: Registry, cmds: Seq<Cmd>, j: int)
    requires
        0 <= j < cmds.len(),
    ensures
        spec_method_lines(r, cmds.take(j + 1)) == spec_method_lines(r, cmds.take(j))
            + spec_method_line(r, cmds[j]),
{
    assert(cmds.take(j + 1).drop_last() =~= cmds.take(j));
    assert(cmds.take(j + 1).last() == cmds[j]);
}

/// The whole emitted resolving `impl`: the loader entry points, the eager
/// table-filling lines, the wrapper methods, and the `Send` marker.
pub open spec fn spec_impl_text(r: Registry) -> Seq<char> {
    spec_impl_head(struct_name_of(r.api)) + spec_load_lines(r, r.cmds@) + "            },
            _priv: ()
        }
    }

"@ + spec_method_lines(r, r.cmds@) + "}

unsafe impl __gl_imports::Send for "@ + struct_name_of(r.api) + " {}\n"@
}

/// Emits the resolving `impl`: `load_with`, the eager per-command
/// resolution in declaration order (primary symbol first, then fallbacks,
/// first success wins), one typed wrapper method per command, and the
/// `Send` marker.
#[verifier::rlimit(100)]
pub fn write_impl(registry: &Registry, dest: &mut String)
    ensures
        final(dest)@ == old(dest)@ + spec_impl_text(*registry),
{
    let ghost base = dest@;
    let ghost r = *registry;
    let name = crate::collab::gen_struct_name(&registry.api);
    dest.append("impl ");
    dest.append(name.as_str());
    dest.append(
        " {
    /// Load each OpenGL symbol using a custom load function. This allows for the
    /// use of functions like `glfwGetProcAddress` or `SDL_GL_GetProcAddress`.
    ///
    /// ~~~ignore
    /// let gl = Gl::load_with(|s| glfw.get_proc_address(s));
    /// ~~~
    #[allow(dead_code, unused_variables)]
    pub fn load_with<F>(mut loadfn: F) -> ",
    );
    dest.append(name.as_str());
    dest.append(
        " where F: FnMut(&'static str) -> *const __gl_imports::raw::c_void {
        #[inline(never)]
        fn do_metaloadfn(loadfn: &mut FnMut(&'static str) -> *const __gl_imports::raw::c_void,
                         symbol: &'static str,
                         symbols: &[&'static str])
                         -> *const __gl_imports::raw::c_void {
            let mut ptr = loadfn(symbol);
            if ptr.is_null() {
                for &sym in symbols {
                    ptr = loadfn(sym);
                    if !ptr.is_null() { break; }
                }
            }
            ptr
        }
        let mut metaloadfn = |symbol: &'static str, symbols: &[&'static str]| {
            do_metaloadfn(&mut loadfn, symbol, symbols)
        };
        ",
    );
    dest.append(name.as_str());
    dest.append(
        "::load_with_metaloadfn(&mut metaloadfn)
    }

    #[inline(never)]
    fn load_with_metaloadfn(metaloadfn: &mut FnMut(&'static str, &[&'static str]) -> *const __gl_imports::raw::c_void) -> ",
    );
    dest.append(name.as_str());
    dest.append(
        " {
        ",
    );
    dest.append(name.as_str());
    dest.append(
        " {
            ptrs: ",
    );
    dest.append(name.as_str());
    dest.append("FnPtrs {\n");
    proof {
        assert(dest@ =~= base + spec_impl_head(struct_name_of(r.api)));
    }
    let ghost acc1 = spec_impl_head(struct_name_of(r.api));
    let ghost head1 = dest@;
    let mut i: usize = 0;
    proof {
        assert(spec_load_lines(r, r.cmds@.take(0)) =~= Seq::<char>::empty());
        assert(head1 + Seq::<char>::empty() =~= head1);
    }
    while i < registry.cmds.len()
        invariant
            i <= registry.cmds@.len(),
            r == *registry,
            dest@ == head1 + spec_load_lines(r, r.cmds@.take(i as int)),
        decreases registry.cmds@.len() - i,
    {
        let ghost before = dest@;
        let cmd = &registry.cmds[i];
        dest.append(cmd.proto.ident.as_str());
        dest.append(": FnPtr::new(metaloadfn(\"");
        let sym = crate::collab::gen_symbol_name(&registry.api, cmd.proto.ident.as_str());
        dest.append(sym.as_str());
        dest.append("\", &[");
        match crate::model::find_aliases(&registry.aliases, &cmd.proto.ident) {
            Option::Some(a) => {
                let ghost goalq = a.fallbacks.deep_view().map_values(
                    |f: Seq<char>| "\""@ + symbol_prefix_of(r.api) + f + "\""@,
                );
                let mut quoted: Vec<String> = Vec::new();
                let mut k: usize = 0;
                while k < a.fallbacks.len()
                    invariant
                        k <= a.fallbacks@.len(),
                        r == *registry,
                        goalq == a.fallbacks.deep_view().map_values(
                            |f: Seq<char>| "\""@ + symbol_prefix_of(r.api) + f + "\""@,
                        ),
                        quoted@.len() == k,
                        forall|j: int| 0 <= j < k ==> quoted@[j]@ == goalq[j],
                    decreases a.fallbacks@.len() - k,
                {
                    let mut q = String::from_str("\"");
                    let s2 = crate::collab::gen_symbol_name(
                        &registry.api,
                        a.fallbacks[k].as_str(),
                    );
                    q.append(s2.as_str());
                    q.append("\"");
                    proof {
                        assert(a.fallbacks.deep_view()[k as int] == a.fallbacks@[k as int]@);
                        assert(q@ =~= goalq[k as int]);
                    }
                    quoted.push(q);
                    k = k + 1;
                }
                proof {
                    assert(forall|j: int|
                        0 <= j < goalq.len() ==> quoted.deep_view()[j] == quoted@[j]@);
                    assert(quoted.deep_view() =~= goalq);
                }
                let joined = crate::text::join(&quoted, ", ");
                dest.append(joined.as_str());
            },
            Option::None => {},
        }
        dest.append("])),\n");
        proof {
            assert(dest@ =~= before + spec_load_line(r, r.cmds@[i as int]));
            lemma_load_lines_step(r, r.cmds@, i as int);
            assert(dest@ =~= head1 + spec_load_lines(r, r.cmds@.take(i as int + 1)));
        }
        i = i + 1;
    }
    proof {
        assert(r.cmds@.take(r.cmds@.len() as int) =~= r.cmds@);
        crate::text::lemma_concat_assoc(base, acc1, spec_load_lines(r, r.cmds@));
    }
    let ghost acc2 = acc1 + spec_load_lines(r, r.cmds@);
    let ghost c2 = dest@;
    dest.append(
        "            },
            _priv: ()
        }
    }

",
    );
    proof {
        crate::text::lemma_concat_assoc(base, acc2, "            },
            _priv: ()
        }
    }

"@);
    }
    let ghost acc3 = acc2 + "            },
            _priv: ()
        }
    }

"@;
    let ghost head2 = dest@;
    let mut i2: usize = 0;
    proof {
        assert(spec_method_lines(r, r.cmds@.take(0)) =~= Seq::<char>::empty());
        assert(head2 + Seq::<char>::empty() =~= head2);
    }
    while i2 < registry.cmds.len()
        invariant
            i2 <= registry.cmds@.len(),
            r == *registry,
            dest@ == head2 + spec_method_lines(r, r.cmds@.take(i2 as int)),
        decreases registry.cmds@.len() - i2,
    {
        let ghost before = dest@;
        let cmd = &registry.cmds[i2];
        dest.append(
            "    #[allow(non_snake_case, unused_variables, dead_code)]
    #[inline] pub unsafe fn ",
        );
        dest.append(cmd.proto.ident.as_str());
        dest.append("(&self, ");
        let p1 = crate::params::gen_parameters(cmd, registry, true, true);
        let j1 = crate::text::join(&p1, ", ");
        dest.append(j1.as_str());
        dest.append(") -> ");
        dest.append(cmd.proto.ty.as_str());
        dest.append(" { __gl_imports::mem::transmute::<_, extern \"system\" fn(");
        let p2 = crate::params::gen_parameters(cmd, registry, false, true);
        let j2 = crate::text::join(&p2, ", ");
        dest.append(j2.as_str());
        dest.append(") -> ");
        dest.append(cmd.proto.ty.as_str());
        dest.append(">(self.ptrs.");
        dest.append(cmd.proto.ident.as_str());
        dest.append(".f)(");
        let p3 = crate::params::gen_parameters(cmd, registry, true, false);
        let j3 = crate::text::join(&p3, ", ");
        dest.append(j3.as_str());
        dest.append(") }\n");
        proof {
            assert(dest@ =~= before + spec_method_line(r, r.cmds@[i2 as int]));
            lemma_method_lines_step(r, r.cmds@, i2 as int);
            assert(dest@ =~= head2 + spec_method_lines(r, r.cmds@.take(i2 as int + 1)));
        }
        i2 = i2 + 1;
    }
    proof {
        assert(r.cmds@.take(r.cmds@.len() as int) =~= r.cmds@);
        crate::text::lemma_concat_assoc(base, acc3, spec_method_lines(r, r.cmds@));
    }
    let ghost acc4 = acc3 + spec_method_lines(r, r.cmds@);
    dest.append(
        "}

unsafe impl __gl_imports::Send for ",
    );
    proof {
        crate::text::lemma_concat_assoc(base, acc4, "}

unsafe impl __gl_imports::Send for "@);
    }
    let ghost acc5 = acc4 + "}

unsafe impl __gl_imports::Send for "@;
    dest.append(name.as_str());
    proof {
        crate::text::lemma_concat_assoc(base, acc5, struct_name_of(r.api));
    }
    let ghost acc6 = acc5 + struct_name_of(r.api);
    dest.append(" {}\n");
    proof {
        crate::text::lemma_concat_assoc(base, acc6, " {}\n"@);
        assert(dest@ == base + spec_impl_text(r));
    }
}

} // verus!

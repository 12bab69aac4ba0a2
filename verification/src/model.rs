//! The in-memory registry model the generator consumes: an API identity, the
//! named constants (`Enum`s), the callable entry points (`Cmd`s), the fallback
//! names of each entry point, and the semantic constant groups.
//!
//! The model is read-only input, built by an external parser; the generator
//! never mutates it.

use vstd::prelude::*;

verus! {

/// The API a registry describes; decides symbol prefixes and type names.
#[derive(Clone, Copy, PartialEq, Eq, Structural, Debug)]
pub enum Api {
    Gl,
    Glx,
    Wgl,
    Egl,
    GlCore,
    Gles1,
    Gles2,
    Glsc2,
}

/// A numeric spec tag for each API, used to index uninterpreted per-API text.
pub open spec fn api_tag(api: Api) -> int {
    match api {
        Api::Gl => 0,
        Api::Glx => 1,
        Api::Wgl => 2,
        Api::Egl => 3,
        Api::GlCore => 4,
        Api::Gles1 => 5,
        Api::Gles2 => 6,
        Api::Glsc2 => 7,
    }
}

/// One named constant with its raw value text.
#[derive(Clone)]
pub struct Enum {
    pub ident: String,
    /// The raw value, as source text (e.g. a hex literal).
    pub value: String,
    /// Whether the emitted constant needs an `as` cast to its declared type.
    pub cast: bool,
    /// The declared type of the constant, as source text.
    pub ty: String,
}

/// One parameter (or the return slot) of a command: a name, a raw type, and
/// an optional reference to a constant group.
#[derive(Clone)]
pub struct Binding {
    pub ident: String,
    pub ty: String,
    pub group: Option<String>,
}

/// One callable API entry point.
#[derive(Clone)]
pub struct Cmd {
    /// The command's own name and return type.
    pub proto: Binding,
    pub params: Vec<Binding>,
}

/// A named, possibly overlapping subset of the registry's constants.
#[derive(Clone)]
pub struct Group {
    /// The name of the wrapper type generated for this group.
    pub ident: String,
    /// The flavor tag; `Some("bitmask")` marks a bitmask group.
    pub enums_type: Option<String>,
    /// The declared member constant names, in declaration order; may repeat
    /// names and may name constants absent from the registry.
    pub enums: Vec<String>,
}

/// The fallback command names of one command, in declaration order.
#[derive(Clone)]
pub struct AliasEntry {
    pub ident: String,
    pub fallbacks: Vec<String>,
}

/// The full registry: one generation run's entire input.
#[derive(Clone)]
pub struct Registry {
    pub api: Api,
    pub enums: Vec<Enum>,
    pub cmds: Vec<Cmd>,
    pub aliases: Vec<AliasEntry>,
    pub groups: Vec<Group>,
}

impl Registry {
    /// Well-formedness: enum, command and group identifiers are each unique.
    pub open spec fn wf(self) -> bool {
        &&& forall|i: int, j: int|
            0 <= i < j < self.enums@.len() ==> self.enums@[i].ident@ != self.enums@[j].ident@
        &&& forall|i: int, j: int|
            0 <= i < j < self.cmds@.len()
                ==> self.cmds@[i].proto.ident@ != self.cmds@[j].proto.ident@
        &&& forall|i: int, j: int|
            0 <= i < j < self.groups@.len() ==> self.groups@[i].ident@ != self.groups@[j].ident@
    }
}

/// The first enum with the given identifier, if any.
pub open spec fn spec_find_enum(enums: Seq<Enum>, ident: Seq<char>) -> Option<Enum>
    decreases enums.len(),
{
    if enums.len() == 0 {
        Option::None
    } else if enums[0].ident@ == ident {
        Option::Some(enums[0])
    } else {
        spec_find_enum(enums.drop_first(), ident)
    }
}

/// The first group with the given name, if any.
pub open spec fn spec_find_group(groups: Seq<Group>, ident: Seq<char>) -> Option<Group>
    decreases groups.len(),
{
    if groups.len() == 0 {
        Option::None
    } else if groups[0].ident@ == ident {
        Option::Some(groups[0])
    } else {
        spec_find_group(groups.drop_first(), ident)
    }
}

/// The fallback list recorded for the given command name, if any.
pub open spec fn spec_find_aliases(aliases: Seq<AliasEntry>, ident: Seq<char>) -> Option<AliasEntry>
    decreases aliases.len(),
{
    if aliases.len() == 0 {
        Option::None
    } else if aliases[0].ident@ == ident {
        Option::Some(aliases[0])
    } else {
        spec_find_aliases(aliases.drop_first(), ident)
    }
}

/// Linear search for an enum by identifier, matching `spec_find_enum`.
pub fn find_enum<'a>(enums: &'a Vec<Enum>, ident: &String) -> (r: Option<&'a Enum>)
    ensures
        match r {
            Option::Some(e) => spec_find_enum(enums@, ident@) == Option::Some(*e),
            Option::None => spec_find_enum(enums@, ident@) is None,
        },
{
    let mut i: usize = 0;
    proof {
        assert(enums@.skip(0) =~= enums@);
    }
    while i < enums.len()
        invariant
            i <= enums.len(),
            spec_find_enum(enums@, ident@) == spec_find_enum(enums@.skip(i as int), ident@),
        decreases enums.len() - i,
    {
        proof {
            assert(enums@.skip(i as int).drop_first() =~= enums@.skip(i as int + 1));
            assert(enums@.skip(i as int)[0] == enums@[i as int]);
        }
        if enums[i].ident.eq(ident) {
            return Option::Some(&enums[i]);
        }
        i = i + 1;
    }
    proof {
        assert(enums@.skip(enums@.len() as int) =~= Seq::<Enum>::empty());
    }
    Option::None
}

/// Linear search for a group by name, matching `spec_find_group`.
pub fn find_group<'a>(groups: &'a Vec<Group>, ident: &String) -> (r: Option<&'a Group>)
    ensures
        match r {
            Option::Some(g) => spec_find_group(groups@, ident@) == Option::Some(*g),
            Option::None => spec_find_group(groups@, ident@) is None,
        },
{
    let mut i: usize = 0;
    proof {
        assert(groups@.skip(0) =~= groups@);
    }
    while i < groups.len()
        invariant
            i <= groups.len(),
            spec_find_group(groups@, ident@) == spec_find_group(groups@.skip(i as int), ident@),
        decreases groups.len() - i,
    {
        proof {
            assert(groups@.skip(i as int).drop_first() =~= groups@.skip(i as int + 1));
            assert(groups@.skip(i as int)[0] == groups@[i as int]);
        }
        if groups[i].ident.eq(ident) {
            return Option::Some(&groups[i]);
        }
        i = i + 1;
    }
    proof {
        assert(groups@.skip(groups@.len() as int) =~= Seq::<Group>::empty());
    }
    Option::None
}

/// Linear search for a command's fallback list, matching `spec_find_aliases`.
pub fn find_aliases<'a>(aliases: &'a Vec<AliasEntry>, ident: &String) -> (r: Option<
    &'a AliasEntry,
>)
    ensures
        match r {
            Option::Some(a) => spec_find_aliases(aliases@, ident@) == Option::Some(*a),
            Option::None => spec_find_aliases(aliases@, ident@) is None,
        },
{
    let mut i: usize = 0;
    proof {
        assert(aliases@.skip(0) =~= aliases@);
    }
    while i < aliases.len()
        invariant
            i <= aliases.len(),
            spec_find_aliases(aliases@, ident@) == spec_find_aliases(
                aliases@.skip(i as int),
                ident@,
            ),
        decreases aliases.len() - i,
    {
        proof {
            assert(aliases@.skip(i as int).drop_first() =~= aliases@.skip(i as int + 1));
            assert(aliases@.skip(i as int)[0] == aliases@[i as int]);
        }
        if aliases[i].ident.eq(ident) {
            return Option::Some(&aliases[i]);
        }
        i = i + 1;
    }
    proof {
        assert(aliases@.skip(aliases@.len() as int) =~= Seq::<AliasEntry>::empty());
    }
    Option::None
}

} // verus!

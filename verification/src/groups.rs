//! The group partitioner and the group-type emitter: derives, per group, the
//! deduplicated list of member constants actually present in the registry,
//! and emits one wrapper type per group with its named constants, a debug
//! rendering rule, and the per-group trait hooks.

use vstd::prelude::*;
use vstd::string::StringExecFns;
use crate::model::{find_enum, spec_find_enum, Enum, Group, Registry};
use crate::text::contains_string;

verus! {

/// One derived constant of a group: a member name and its raw value text.
#[derive(Clone)]
pub struct ConstEntry {
    pub ident: String,
    pub value: String,
}

/// The (name, value) pairs a sequence of entries stands for.
pub open spec fn consts_view(s: Seq<ConstEntry>) -> Seq<(Seq<char>, Seq<char>)> {
    s.map_values(|e: ConstEntry| (e.ident@, e.value@))
}

/// The derived constant set of a group: the declared member list in order,
/// keeping only the first occurrence of each name (`seen` holds the names
/// already processed) and only names present in the registry's enum list,
/// each paired with its raw value.
pub open spec fn spec_group_consts(
    members: Seq<Seq<char>>,
    enums: Seq<Enum>,
    seen: Seq<Seq<char>>,
) -> Seq<(Seq<char>, Seq<char>)>
    decreases members.len(),
{
    if members.len() == 0 {
        Seq::empty()
    } else {
        let h = members[0];
        let rest = spec_group_consts(members.drop_first(), enums, seen.push(h));
        if !seen.contains(h) && spec_find_enum(enums, h) is Some {
            seq![(h, spec_find_enum(enums, h)->Some_0.value@)] + rest
        } else {
            rest
        }
    }
}

/// Whether a group carries the bitmask flavor tag.
pub open spec fn spec_is_bitmask(g: Group) -> bool {
    match g.enums_type {
        Option::Some(t) => t@ == "bitmask"@,
        Option::None => false,
    }
}

/// The constants the group's wrapper type is emitted with: the derived
/// constant set, followed by an `Empty` constant of value zero for a
/// bitmask-flavored group.
pub open spec fn spec_emitted_consts(g: Group, r: Registry) -> Seq<(Seq<char>, Seq<char>)> {
    spec_group_consts(g.enums.deep_view(), r.enums@, Seq::empty()) + if spec_is_bitmask(g) {
        seq![("Empty"@, "0"@)]
    } else {
        Seq::empty()
    }
}

/// A bitmask-flavored group always emits an `Empty` constant of value zero,
/// whether or not zero appears in its declared member list.
pub proof fn lemma_bitmask_emits_empty(g: Group, r: Registry)
    requires
        spec_is_bitmask(g),
    ensures
        spec_emitted_consts(g, r).last() == ("Empty"@, "0"@),
        spec_emitted_consts(g, r).contains(("Empty"@, "0"@)),
{
    let s = spec_emitted_consts(g, r);
    assert(s[s.len() - 1] == ("Empty"@, "0"@));
}

/// Derives the group's constant set, matching `spec_group_consts`: declared
/// members in order, first occurrence only, restricted to names the registry
/// actually defines.
pub fn gen_group_constants(group: &Group, registry: &Registry) -> (r: Vec<ConstEntry>)
    ensures
        consts_view(r@) == spec_group_consts(
            group.enums.deep_view(),
            registry.enums@,
            Seq::empty(),
        ),
{
    let ghost members = group.enums.deep_view();
    let ghost enums = registry.enums@;
    let mut seen: Vec<String> = Vec::new();
    let mut out: Vec<ConstEntry> = Vec::new();
    let mut i: usize = 0;
    proof {
        assert(members.skip(0) =~= members);
        assert(members.take(0) =~= Seq::<Seq<char>>::empty());
        assert(consts_view(out@) =~= Seq::<(Seq<char>, Seq<char>)>::empty());
    }
    while i < group.enums.len()
        invariant
            i <= group.enums@.len(),
            members == group.enums.deep_view(),
            enums == registry.enums@,
            seen@.len() == i,
            forall|j: int| 0 <= j < i ==> seen@[j]@ == members[j],
            spec_group_consts(members, enums, Seq::empty()) == consts_view(out@)
                + spec_group_consts(members.skip(i as int), enums, members.take(i as int)),
        decreases group.enums@.len() - i,
    {
        let m = &group.enums[i];
        proof {
            assert(members[i as int] == group.enums@[i as int]@);
            assert(forall|j: int|
                0 <= j < i ==> seen.deep_view()[j] == seen@[j]@);
            assert(seen.deep_view() =~= members.take(i as int));
        }
        let is_new = !contains_string(&seen, m);
        seen.push(m.clone());
        let ghost h = members[i as int];
        proof {
            let tail = spec_group_consts(members.skip(i as int), enums, members.take(i as int));
            assert(members.skip(i as int)[0] == h);
            assert(members.skip(i as int).drop_first() =~= members.skip(i as int + 1));
            assert(members.take(i as int).push(h) =~= members.take(i as int + 1));
        }
        if is_new {
            match find_enum(&registry.enums, m) {
                Option::Some(e) => {
                    let ghost prev = out@;
                    out.push(ConstEntry { ident: m.clone(), value: e.value.clone() });
                    proof {
                        assert(consts_view(out@) =~= consts_view(prev) + seq![
                            (h, spec_find_enum(enums, h)->Some_0.value@),
                        ]);
                        assert(consts_view(prev) + (seq![
                            (h, spec_find_enum(enums, h)->Some_0.value@),
                        ] + spec_group_consts(
                            members.skip(i as int + 1),
                            enums,
                            members.take(i as int + 1),
                        )) =~= consts_view(out@) + spec_group_consts(
                            members.skip(i as int + 1),
                            enums,
                            members.take(i as int + 1),
                        ));
                    }
                },
                Option::None => {},
            }
        }
        i = i + 1;
    }
    proof {
        assert(members.skip(members.len() as int) =~= Seq::<Seq<char>>::empty());
        assert(consts_view(out@) + Seq::<(Seq<char>, Seq<char>)>::empty() =~= consts_view(out@));
    }
    out
}

/// The debug rendering rule of a group's wrapper type: the first constant
/// whose value equals the instance names the rendering; a value no constant
/// carries is rendered as the raw value.
pub open spec fn spec_render_debug(
    group: Seq<char>,
    consts: Seq<(Seq<char>, Seq<char>)>,
    value: Seq<char>,
) -> Seq<char>
    decreases consts.len(),
{
    if consts.len() == 0 {
        group + "("@ + value + ")"@
    } else if consts[0].1 == value {
        group + "("@ + consts[0].0 + ")"@
    } else {
        spec_render_debug(group, consts.drop_first(), value)
    }
}

/// Renders a wrapped value the way the emitted `Debug` rule does, matching
/// `spec_render_debug`: `Group(Name)` for the first constant with that
/// value, else `Group(value)`.
pub fn render_group_debug(group_ident: &String, consts: &Vec<ConstEntry>, value: &String) -> (r:
    String)
    ensures
        r@ == spec_render_debug(group_ident@, consts_view(consts@), value@),
{
    let ghost pairs = consts_view(consts@);
    let mut i: usize = 0;
    proof {
        assert(pairs.skip(0) =~= pairs);
    }
    while i < consts.len()
        invariant
            i <= consts@.len(),
            pairs == consts_view(consts@),
            spec_render_debug(group_ident@, pairs, value@) == spec_render_debug(
                group_ident@,
                pairs.skip(i as int),
                value@,
            ),
        decreases consts@.len() - i,
    {
        proof {
            assert(pairs.skip(i as int)[0] == pairs[i as int]);
            assert(pairs.skip(i as int).drop_first() =~= pairs.skip(i as int + 1));
        }
        if consts[i].value.eq(value) {
            let mut r = group_ident.clone();
            r.append("(");
            r.append(consts[i].ident.as_str());
            r.append(")");
            return r;
        }
        i = i + 1;
    }
    proof {
        assert(pairs.skip(pairs.len() as int) =~= Seq::<(Seq<char>, Seq<char>)>::empty());
    }
    let mut r = group_ident.clone();
    r.append("(");
    r.append(value.as_str());
    r.append(")");
    r
}

/// The representation type of a group's wrapper: the boolean alias for the
/// truth-value group, the generic enum alias otherwise.
pub open spec fn spec_group_repr_ty(g: Group) -> Seq<char> {
    if g.ident@ == "Boolean"@ {
        "types::GLboolean"@
    } else {
        "types::GLenum"@
    }
}

/// One emitted member constant line of a group's wrapper type.
pub open spec fn spec_member_const_line(g: Seq<char>, name: Seq<char>) -> Seq<char> {
    "    pub const "@ + name + ": "@ + g + " = "@ + g + "(super::"@ + name + ");\n"@
}

/// The member constant lines, one per derived constant, in order.
pub open spec fn spec_member_const_lines(g: Seq<char>, consts: Seq<(Seq<char>, Seq<char>)>) -> Seq<
    char,
>
    decreases consts.len(),
{
    if consts.len() == 0 {
        Seq::empty()
    } else {
        spec_member_const_lines(g, consts.drop_last()) + spec_member_const_line(
            g,
            consts.last().0,
        )
    }
}

/// One match arm of the emitted debug rule.
pub open spec fn spec_debug_arm_line(g: Seq<char>, name: Seq<char>) -> Seq<char> {
    "            "@ + g + "::"@ + name + " => write!(fmt, \""@ + g + "("@ + name + ")\"),\n"@
}

/// The debug match arms, one per derived constant, in order.
pub open spec fn spec_debug_arm_lines(g: Seq<char>, consts: Seq<(Seq<char>, Seq<char>)>) -> Seq<
    char,
>
    decreases consts.len(),
{
    if consts.len() == 0 {
        Seq::empty()
    } else {
        spec_debug_arm_lines(g, consts.drop_last()) + spec_debug_arm_line(g, consts.last().0)
    }
}

/// The `Empty` constant line a bitmask-flavored group carries.
pub open spec fn spec_empty_const_line(g: Seq<char>) -> Seq<char> {
    "    pub const Empty: "@ + g + " = "@ + g + "(0);\n"@
}

/// The opening of one group's text: the wrapper type and the head of its
/// constant impl.
pub open spec fn spec_group_head(g: Group) -> Seq<char> {
    "#[repr(transparent)]\n"@ + "#[derive(Copy, Clone, PartialEq, Eq, Hash)]\n"@ + "pub struct "@
        + g.ident@ + "(pub "@ + spec_group_repr_ty(g) + ");\n"@ + "\n"@ + "impl "@ + g.ident@
        + " {\n"@
}

/// The middle of one group's text: the close of the constant impl and the
/// head of the debug rule.
pub open spec fn spec_group_mid(name: Seq<char>) -> Seq<char> {
    "}\n"@ + "\n"@ + "impl ::std::fmt::Debug for "@ + name + " {\n"@
        + "    fn fmt(&self, fmt: &mut ::std::fmt::Formatter) -> ::std::fmt::Result {\n"@
        + "        match *self {\n"@
}

/// The close of one group's text: the debug fallback arm, the close of the
/// debug rule, and the unconditional trait hook.
pub open spec fn spec_group_tail(name: Seq<char>) -> Seq<char> {
    "            _ => write!(fmt, \""@ + name + "({})\", self.0),\n"@ + "        }\n"@ + "    }\n"@
        + "}\n"@ + "\n"@ + "impl_enum_traits!("@ + name + ");\n"@ + "\n"@
}

/// The bitmask-only trait hook line.
pub open spec fn spec_bitmask_hook(name: Seq<char>) -> Seq<char> {
    "impl_enum_bitmask_traits!("@ + name + ");\n"@ + "\n"@
}

/// The whole emitted text of one group: wrapper type, constants, debug rule
/// and trait hooks.
pub open spec fn spec_group_text(g: Group, r: Registry) -> Seq<char> {
    let name = g.ident@;
    let consts = spec_group_consts(g.enums.deep_view(), r.enums@, Seq::empty());
    spec_group_head(g) + spec_member_const_lines(name, consts) + (if spec_is_bitmask(g) {
        spec_empty_const_line(name)
    } else {
        Seq::<char>::empty()
    }) + spec_group_mid(name) + spec_debug_arm_lines(name, consts) + spec_group_tail(name) + (
    if spec_is_bitmask(g) {
        spec_bitmask_hook(name)
    } else {
        Seq::<char>::empty()
    })
}

proof fn lemma_member_const_lines_step(g: Seq<char>, consts: Seq<(Seq<char>, Seq<char>)>, j: int)
    requires
        0 <= j < consts.len(),
    ensures
        spec_member_const_lines(g, consts.take(j + 1)) == spec_member_const_lines(
            g,
            consts.take(j),
        ) + spec_member_const_line(g, consts[j].0),
{
    assert(consts.take(j + 1).drop_last() =~= consts.take(j));
    assert(consts.take(j + 1).last() == consts[j]);
}

proof fn lemma_debug_arm_lines_step(g: Seq<char>, consts: Seq<(Seq<char>, Seq<char>)>, j: int)
    requires
        0 <= j < consts.len(),
    ensures
        spec_debug_arm_lines(g, consts.take(j + 1)) == spec_debug_arm_lines(g, consts.take(j))
            + spec_debug_arm_line(g, consts[j].0),
{
    assert(consts.take(j + 1).drop_last() =~= consts.take(j));
    assert(consts.take(j + 1).last() == consts[j]);
}

/// Appends the member constant lines of a group to the output.
fn append_member_const_lines(dest: &mut String, g: &String, consts: &Vec<ConstEntry>)
    ensures
        final(dest)@ == old(dest)@ + spec_member_const_lines(g@, consts_view(consts@)),
{
    let ghost pairs = consts_view(consts@);
    let ghost base = dest@;
    let mut j: usize = 0;
    proof {
        assert(pairs.take(0) =~= Seq::<(Seq<char>, Seq<char>)>::empty());
        assert(base + Seq::<char>::empty() =~= base);
    }
    while j < consts.len()
        invariant
            j <= consts@.len(),
            pairs == consts_view(consts@),
            dest@ == base + spec_member_const_lines(g@, pairs.take(j as int)),
        decreases consts@.len() - j,
    {
        let ghost before = dest@;
        dest.append("    pub const ");
        dest.append(consts[j].ident.as_str());
        dest.append(": ");
        dest.append(g.as_str());
        dest.append(" = ");
        dest.append(g.as_str());
        dest.append("(super::");
        dest.append(consts[j].ident.as_str());
        dest.append(");\n");
        proof {
            assert(pairs[j as int].0 == consts@[j as int].ident@);
            lemma_member_const_lines_step(g@, pairs, j as int);
            assert(dest@ =~= base + spec_member_const_lines(g@, pairs.take(j as int + 1)));
        }
        j = j + 1;
    }
    proof {
        assert(pairs.take(pairs.len() as int) =~= pairs);
    }
}

/// Appends the debug match arms of a group to the output.
fn append_debug_arm_lines(dest: &mut String, g: &String, consts: &Vec<ConstEntry>)
    ensures
        final(dest)@ == old(dest)@ + spec_debug_arm_lines(g@, consts_view(consts@)),
{
    let ghost pairs = consts_view(consts@);
    let ghost base = dest@;
    let mut j: usize = 0;
    proof {
        assert(pairs.take(0) =~= Seq::<(Seq<char>, Seq<char>)>::empty());
        assert(base + Seq::<char>::empty() =~= base);
    }
    while j < consts.len()
        invariant
            j <= consts@.len(),
            pairs == consts_view(consts@),
            dest@ == base + spec_debug_arm_lines(g@, pairs.take(j as int)),
        decreases consts@.len() - j,
    {
        dest.append("            ");
        dest.append(g.as_str());
        dest.append("::");
        dest.append(consts[j].ident.as_str());
        dest.append(" => write!(fmt, \"");
        dest.append(g.as_str());
        dest.append("(");
        dest.append(consts[j].ident.as_str());
        dest.append(")\"),\n");
        proof {
            assert(pairs[j as int].0 == consts@[j as int].ident@);
            lemma_debug_arm_lines_step(g@, pairs, j as int);
            assert(dest@ =~= base + spec_debug_arm_lines(g@, pairs.take(j as int + 1)));
        }
        j = j + 1;
    }
    proof {
        assert(pairs.take(pairs.len() as int) =~= pairs);
    }
}

/// Whether the group carries the bitmask flavor tag, matching
/// `spec_is_bitmask`.
pub fn is_bitmask(group: &Group) -> (r: bool)
    ensures
        r == spec_is_bitmask(*group),
{
    match &group.enums_type {
        Option::Some(t) => t.eq(&String::from_str("bitmask")),
        Option::None => false,
    }
}

/// Emits one group's wrapper type, constants, debug rule and trait hooks.
#[verifier::rlimit(100)]
pub fn write_group(group: &Group, registry: &Registry, dest: &mut String)
    ensures
        final(dest)@ == old(dest)@ + spec_group_text(*group, *registry),
{
    let ghost base = dest@;
    let ghost name = group.ident@;
    let consts = gen_group_constants(group, registry);
    let ghost pairs = consts_view(consts@);
    let bitmask = is_bitmask(group);
    dest.append("#[repr(transparent)]\n");
    dest.append("#[derive(Copy, Clone, PartialEq, Eq, Hash)]\n");
    dest.append("pub struct ");
    dest.append(group.ident.as_str());
    dest.append("(pub ");
    if group.ident.eq(&String::from_str("Boolean")) {
        dest.append("types::GLboolean");
    } else {
        dest.append("types::GLenum");
    }
    dest.append(");\n");
    dest.append("\n");
    dest.append("impl ");
    dest.append(group.ident.as_str());
    dest.append(" {\n");
    proof {
        assert(dest@ =~= base + spec_group_head(*group));
    }
    let ghost acc1 = spec_group_head(*group);
    append_member_const_lines(dest, &group.ident, &consts);
    proof {
        crate::text::lemma_concat_assoc(base, acc1, spec_member_const_lines(name, pairs));
    }
    let ghost acc2 = acc1 + spec_member_const_lines(name, pairs);
    let ghost c2 = dest@;
    if bitmask {
        dest.append("    pub const Empty: ");
        dest.append(group.ident.as_str());
        dest.append(" = ");
        dest.append(group.ident.as_str());
        dest.append("(0);\n");
        proof {
            assert(dest@ =~= c2 + spec_empty_const_line(name));
            crate::text::lemma_concat_assoc(base, acc2, spec_empty_const_line(name));
        }
    } else {
        proof {
            assert(acc2 + Seq::<char>::empty() =~= acc2);
        }
    }
    let ghost acc3 = acc2 + (if spec_is_bitmask(*group) {
        spec_empty_const_line(name)
    } else {
        Seq::<char>::empty()
    });
    let ghost c3 = dest@;
    dest.append("}\n");
    dest.append("\n");
    dest.append("impl ::std::fmt::Debug for ");
    dest.append(group.ident.as_str());
    dest.append(" {\n");
    dest.append("    fn fmt(&self, fmt: &mut ::std::fmt::Formatter) -> ::std::fmt::Result {\n");
    dest.append("        match *self {\n");
    proof {
        assert(dest@ =~= c3 + spec_group_mid(name));
        crate::text::lemma_concat_assoc(base, acc3, spec_group_mid(name));
    }
    let ghost acc4 = acc3 + spec_group_mid(name);
    append_debug_arm_lines(dest, &group.ident, &consts);
    proof {
        crate::text::lemma_concat_assoc(base, acc4, spec_debug_arm_lines(name, pairs));
    }
    let ghost acc5 = acc4 + spec_debug_arm_lines(name, pairs);
    let ghost c5 = dest@;
    dest.append("            _ => write!(fmt, \"");
    dest.append(group.ident.as_str());
    dest.append("({})\", self.0),\n");
    dest.append("        }\n");
    dest.append("    }\n");
    dest.append("}\n");
    dest.append("\n");
    dest.append("impl_enum_traits!(");
    dest.append(group.ident.as_str());
    dest.append(");\n");
    dest.append("\n");
    proof {
        assert(dest@ =~= c5 + spec_group_tail(name));
        crate::text::lemma_concat_assoc(base, acc5, spec_group_tail(name));
    }
    let ghost acc6 = acc5 + spec_group_tail(name);
    let ghost c6 = dest@;
    if bitmask {
        dest.append("impl_enum_bitmask_traits!(");
        dest.append(group.ident.as_str());
        dest.append(");\n");
        dest.append("\n");
        proof {
            assert(dest@ =~= c6 + spec_bitmask_hook(name));
            crate::text::lemma_concat_assoc(base, acc6, spec_bitmask_hook(name));
        }
    } else {
        proof {
            assert(acc6 + Seq::<char>::empty() =~= acc6);
        }
    }
    proof {
        assert(dest@ == base + spec_group_text(*group, *registry));
    }
}

/// The emitted text of every group, in registry order.
pub open spec fn spec_groups_texts(groups: Seq<Group>, r: Registry) -> Seq<char>
    decreases groups.len(),
{
    if groups.len() == 0 {
        Seq::empty()
    } else {
        spec_groups_texts(groups.drop_last(), r) + spec_group_text(groups.last(), r)
    }
}

/// The whole emitted `enums` module: the two trait-hook macro shells, the
/// module head, and every group's text.
pub open spec fn spec_enum_groups_text(r: Registry) -> Seq<char> {
    "macro_rules! impl_enum_traits {\n        ($Name:ident) => {\n\n        }\n    }\n"@ + "\n"@
        + "macro_rules! impl_enum_bitmask_traits {\n        ($Name:ident) => {\n\n        }\n    }\n"@
        + "\n"@ + "pub mod enums {\n"@
        + "#![allow(non_camel_case_types, non_upper_case_globals, non_snake_case, dead_code, unreachable_patterns)]\n"@
        + "\n"@ + "use super::types;\n"@ + "\n"@ + spec_groups_texts(r.groups@, r) + "}\n"@
}

proof fn lemma_groups_texts_step(groups: Seq<Group>, r: Registry, j: int)
    requires
        0 <= j < groups.len(),
    ensures
        spec_groups_texts(groups.take(j + 1), r) == spec_groups_texts(groups.take(j), r)
            + spec_group_text(groups[j], r),
{
    assert(groups.take(j + 1).drop_last() =~= groups.take(j));
    assert(groups.take(j + 1).last() == groups[j]);
}

/// Emits the `enums` module: the trait-hook macro shells, then one wrapper
/// type per group in registry order.
pub fn write_enum_groups(registry: &Registry, dest: &mut String)
    ensures
        final(dest)@ == old(dest)@ + spec_enum_groups_text(*registry),
{
    let ghost base = dest@;
    dest.append("macro_rules! impl_enum_traits {\n        ($Name:ident) => {\n\n        }\n    }\n");
    dest.append("\n");
    dest.append(
        "macro_rules! impl_enum_bitmask_traits {\n        ($Name:ident) => {\n\n        }\n    }\n",
    );
    dest.append("\n");
    dest.append("pub mod enums {\n");
    dest.append(
        "#![allow(non_camel_case_types, non_upper_case_globals, non_snake_case, dead_code, unreachable_patterns)]\n",
    );
    dest.append("\n");
    dest.append("use super::types;\n");
    dest.append("\n");
    let ghost head = dest@;
    let mut j: usize = 0;
    proof {
        assert(spec_groups_texts(registry.groups@.take(0), *registry) =~= Seq::<char>::empty());
        assert(head + Seq::<char>::empty() =~= head);
    }
    while j < registry.groups.len()
        invariant
            j <= registry.groups@.len(),
            head + spec_groups_texts(registry.groups@.take(j as int), *registry) == dest@,
        decreases registry.groups@.len() - j,
    {
        write_group(&registry.groups[j], registry, dest);
        proof {
            lemma_groups_texts_step(registry.groups@, *registry, j as int);
            assert(head + spec_groups_texts(registry.groups@.take(j as int + 1), *registry)
                =~= dest@);
        }
        j = j + 1;
    }
    proof {
        assert(registry.groups@.take(registry.groups@.len() as int) =~= registry.groups@);
    }
    dest.append("}\n");
    proof {
        assert(dest@ =~= base + spec_enum_groups_text(*registry));
    }
}

} // verus!

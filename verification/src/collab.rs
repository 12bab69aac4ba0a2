//! The collaborator calls the generator makes into `gl_generator`: the
//! per-API type-alias module, the flat constant items, the struct name and
//! the exported symbol name. Each stands behind a trusted wrapper whose
//! contract states what the collaborator's source shows.

use vstd::prelude::*;
use crate::model::{api_tag, Api, Enum};

verus! {

/// The name of the generated binding struct for each API.
pub open spec fn struct_name_of(api: Api) -> Seq<char> {
    match api {
        Api::Gl => "Gl"@,
        Api::Glx => "Glx"@,
        Api::Wgl => "Wgl"@,
        Api::Egl => "Egl"@,
        Api::GlCore => "GlCore"@,
        Api::Gles1 => "Gles1"@,
        Api::Gles2 => "Gles2"@,
        Api::Glsc2 => "Glsc2"@,
    }
}

/// The platform symbol prefix each API's exported names carry.
pub open spec fn symbol_prefix_of(api: Api) -> Seq<char> {
    match api {
        Api::Gl | Api::GlCore | Api::Gles1 | Api::Gles2 | Api::Glsc2 => "gl"@,
        Api::Glx => "glX"@,
        Api::Wgl => "wgl"@,
        Api::Egl => "egl"@,
    }
}

/// The lower-case display name of each API.
pub open spec fn api_name_of(api: Api) -> Seq<char> {
    match api {
        Api::Gl => "gl"@,
        Api::Glx => "glx"@,
        Api::Wgl => "wgl"@,
        Api::Egl => "egl"@,
        Api::GlCore => "glcore"@,
        Api::Gles1 => "gles1"@,
        Api::Gles2 => "gles2"@,
        Api::Glsc2 => "glsc2"@,
    }
}

/// The text of one emitted flat constant item, as `gl_generator`'s
/// `gen_enum_item` writes it: the types prefix is dropped in the type
/// position when the declared type is `&'static str`, while a cast suffix
/// always uses the prefix as given.
pub open spec fn enum_item_text(
    ident: Seq<char>,
    ty: Seq<char>,
    value: Seq<char>,
    cast: bool,
    prefix: Seq<char>,
) -> Seq<char> {
    let ty_prefix = if ty == "&'static str"@ {
        Seq::<char>::empty()
    } else {
        prefix
    };
    let cast_suffix = if cast {
        " as "@ + prefix + ty
    } else {
        Seq::<char>::empty()
    };
    "#[allow(dead_code, non_upper_case_globals)] pub const "@ + ident + ": "@ + ty_prefix + ty
        + " = "@ + value + cast_suffix + ";\n"@
}

/// The text of the per-API type-alias module body; a fixed template chosen
/// by the API alone.
pub uninterp spec fn types_module_of(tag: int) -> Seq<char>;

/// Relies on gl_generator::generators::gen_struct_name: one fixed struct
/// name per API variant.
#[verifier::external_body]
pub(crate) fn gen_struct_name(api: &Api) -> (r: String)
    ensures
        r@ == struct_name_of(*api),
{
    let raw = match api {
        Api::Gl => gl_generator::Api::Gl,
        Api::Glx => gl_generator::Api::Glx,
        Api::Wgl => gl_generator::Api::Wgl,
        Api::Egl => gl_generator::Api::Egl,
        Api::GlCore => gl_generator::Api::GlCore,
        Api::Gles1 => gl_generator::Api::Gles1,
        Api::Gles2 => gl_generator::Api::Gles2,
        Api::Glsc2 => gl_generator::Api::Glsc2,
    };
    gl_generator::generators::gen_struct_name(raw).to_string()
}

/// Relies on gl_generator::generators::gen_symbol_name: the API's symbol
/// prefix followed by the command name.
#[verifier::external_body]
pub(crate) fn gen_symbol_name(api: &Api, cmd: &str) -> (r: String)
    ensures
        r@ == symbol_prefix_of(*api) + cmd@,
{
    let raw = match api {
        Api::Gl => gl_generator::Api::Gl,
        Api::Glx => gl_generator::Api::Glx,
        Api::Wgl => gl_generator::Api::Wgl,
        Api::Egl => gl_generator::Api::Egl,
        Api::GlCore => gl_generator::Api::GlCore,
        Api::Gles1 => gl_generator::Api::Gles1,
        Api::Gles2 => gl_generator::Api::Gles2,
        Api::Glsc2 => gl_generator::Api::Glsc2,
    };
    gl_generator::generators::gen_symbol_name(raw, cmd)
}

/// Relies on gl_generator::Api's Display impl: one fixed lower-case name
/// per API variant.
#[verifier::external_body]
pub(crate) fn api_display_name(api: &Api) -> (r: String)
    ensures
        r@ == api_name_of(*api),
{
    let raw = match api {
        Api::Gl => gl_generator::Api::Gl,
        Api::Glx => gl_generator::Api::Glx,
        Api::Wgl => gl_generator::Api::Wgl,
        Api::Egl => gl_generator::Api::Egl,
        Api::GlCore => gl_generator::Api::GlCore,
        Api::Gles1 => gl_generator::Api::Gles1,
        Api::Gles2 => gl_generator::Api::Gles2,
        Api::Glsc2 => gl_generator::Api::Glsc2,
    };
    raw.to_string()
}

/// Relies on gl_generator::generators::gen_enum_item: one `pub const` line
/// per constant, in the exact shape `enum_item_text` states.
#[verifier::external_body]
pub(crate) fn gen_enum_item_text(enm: &Enum, types_prefix: &str) -> (r: String)
    ensures
        r@ == enum_item_text(enm.ident@, enm.ty@, enm.value@, enm.cast, types_prefix@),
{
    let raw = gl_generator::Enum {
        ident: enm.ident.clone(),
        value: enm.value.clone(),
        cast: enm.cast,
        alias: None,
        ty: std::borrow::Cow::from(enm.ty.clone()),
    };
    let mut buf: Vec<u8> = Vec::new();
    gl_generator::generators::gen_enum_item(&raw, types_prefix, &mut buf).unwrap();
    String::from_utf8(buf).unwrap()
}

/// Relies on gl_generator::generators::gen_types: a fixed type-alias
/// template chosen by the API alone.
#[verifier::external_body]
pub(crate) fn gen_types_text(api: &Api) -> (r: String)
    ensures
        r@ == types_module_of(api_tag(*api)),
{
    let raw = match api {
        Api::Gl => gl_generator::Api::Gl,
        Api::Glx => gl_generator::Api::Glx,
        Api::Wgl => gl_generator::Api::Wgl,
        Api::Egl => gl_generator::Api::Egl,
        Api::GlCore => gl_generator::Api::GlCore,
        Api::Gles1 => gl_generator::Api::Gles1,
        Api::Gles2 => gl_generator::Api::Gles2,
        Api::Glsc2 => gl_generator::Api::Glsc2,
    };
    let mut buf: Vec<u8> = Vec::new();
    gl_generator::generators::gen_types(raw, &mut buf).unwrap();
    String::from_utf8(buf).unwrap()
}

} // verus!

//! What all generators share: the text of a constant, of the type aliases, of
//! a parameter list and of a native symbol name.

use vstd::prelude::*;
use vstd::string::*;
use crate::error::GenerationError;
use crate::registry::{
    Api, BindingView, Cmd, Enum, EnumView, Registry, TypeTemplates, TypeTemplatesView,
};
use crate::text::same_text;

pub mod global_typed_gen;
pub mod laws;
pub mod templates;

verus! {

/// A bindings generator: it appends the bindings for `registry` to `dest`.
///
/// Whatever an implementation emits, it leaves what `dest` held in place,
/// and it emits nothing when it fails.
pub trait Generator {
    fn write(&self, registry: &Registry, dest: &mut String) -> (r: Result<(), GenerationError>)
        ensures
            old(dest)@.is_prefix_of(final(dest)@),
            r.is_err() ==> final(dest)@ == old(dest)@,
    ;
}

pub const NAME_GL: &'static str = "Gl";

pub const NAME_GLX: &'static str = "Glx";

pub const NAME_WGL: &'static str = "Wgl";

pub const NAME_EGL: &'static str = "Egl";

pub const NAME_GL_CORE: &'static str = "GlCore";

pub const NAME_GLES1: &'static str = "Gles1";

pub const NAME_GLES2: &'static str = "Gles2";

pub const NAME_GLSC2: &'static str = "Glsc2";

/// The name of the structure that holds the bindings of `api`.
pub open spec fn struct_name(api: Api) -> Seq<char> {
    match api {
        Api::Gl => NAME_GL@,
        Api::Glx => NAME_GLX@,
        Api::Wgl => NAME_WGL@,
        Api::Egl => NAME_EGL@,
        Api::GlCore => NAME_GL_CORE@,
        Api::Gles1 => NAME_GLES1@,
        Api::Gles2 => NAME_GLES2@,
        Api::Glsc2 => NAME_GLSC2@,
    }
}

/// The name of the structure that holds the bindings of `api`.
pub fn gen_struct_name(api: Api) -> (r: &'static str)
    ensures
        r@ == struct_name(api),
{
    match api {
        Api::Gl => NAME_GL,
        Api::Glx => NAME_GLX,
        Api::Wgl => NAME_WGL,
        Api::Egl => NAME_EGL,
        Api::GlCore => NAME_GL_CORE,
        Api::Gles1 => NAME_GLES1,
        Api::Gles2 => NAME_GLES2,
        Api::Glsc2 => NAME_GLSC2,
    }
}

pub const ENUM_ITEM_HEAD: &'static str = "#[allow(dead_code, non_upper_case_globals)] pub const ";

pub const COLON: &'static str = ": ";

pub const EQUALS: &'static str = " = ";

pub const CAST: &'static str = " as ";

pub const ENUM_ITEM_END: &'static str = ";\n";

/// The type of a constant that holds text; it lives outside the namespace
/// of the native types.
pub const STATIC_STR: &'static str = "&'static str";

pub const NEWLINE: &'static str = "\n";

/// The type of the constant for `enm` as it is written: inside the
/// namespace of the native types, unless the constant holds text.
pub open spec fn enum_type_text(enm: EnumView, types_prefix: Seq<char>) -> Seq<char> {
    if enm.ty == STATIC_STR@ {
        enm.ty
    } else {
        types_prefix + enm.ty
    }
}

/// The value of the constant for `enm` as it is written: cast to the
/// declared type where the enum asks for it.
pub open spec fn enum_value_text(enm: EnumView, types_prefix: Seq<char>) -> Seq<char> {
    if enm.cast {
        enm.value + CAST@ + types_prefix + enm.ty
    } else {
        enm.value
    }
}

/// The item `const name: type = value;` for `enm`, on a line of its own.
/// `types_prefix` leads to the namespace of the native types.
pub open spec fn enum_item_text(enm: EnumView, types_prefix: Seq<char>) -> Seq<char> {
    ENUM_ITEM_HEAD@ + enm.ident + COLON@ + enum_type_text(enm, types_prefix) + EQUALS@
        + enum_value_text(enm, types_prefix) + ENUM_ITEM_END@
}

fn get_enum_type(enm: &Enum, types_prefix: &str) -> (r: String)
    ensures
        r@ == enum_type_text(enm@, types_prefix@),
{
    let mut r = String::new();
    if !same_text(enm.ty.as_str(), STATIC_STR) {
        r.append(types_prefix);
    }
    r.append(enm.ty.as_str());
    proof {
        assert(r@ =~= enum_type_text(enm@, types_prefix@));
    }
    r
}

fn get_enum_value(enm: &Enum, types_prefix: &str) -> (r: String)
    ensures
        r@ == enum_value_text(enm@, types_prefix@),
{
    let mut r = enm.value.clone();
    if enm.cast {
        r.append(CAST);
        r.append(types_prefix);
        r.append(enm.ty.as_str());
    }
    proof {
        assert(r@ =~= enum_value_text(enm@, types_prefix@));
    }
    r
}

/// Appends the item `const name: type = value;` for `enm`.
pub fn gen_enum_item(enm: &Enum, types_prefix: &str, dest: &mut String)
    ensures
        final(dest)@ == old(dest)@ + enum_item_text(enm@, types_prefix@),
{
    let ghost start = dest@;
    let declared = get_enum_type(enm, types_prefix);
    let value = get_enum_value(enm, types_prefix);
    dest.append(ENUM_ITEM_HEAD);
    dest.append(enm.ident.as_str());
    dest.append(COLON);
    dest.append(declared.as_str());
    dest.append(EQUALS);
    dest.append(value.as_str());
    dest.append(ENUM_ITEM_END);
    proof {
        assert(dest@ =~= start + enum_item_text(enm@, types_prefix@));
    }
}

/// The type aliases of `api`: the block for EGL alone, or the common block
/// followed by that of the window system.
pub open spec fn types_text(api: Api, templates: TypeTemplatesView) -> Seq<char> {
    match api {
        Api::Egl => templates.egl + NEWLINE@,
        Api::Glx => templates.gl + NEWLINE@ + templates.glx + NEWLINE@,
        Api::Wgl => templates.gl + NEWLINE@ + templates.wgl + NEWLINE@,
        _ => templates.gl + NEWLINE@,
    }
}

/// Appends the type aliases of `api`.
pub fn gen_types(api: Api, templates: &TypeTemplates, dest: &mut String)
    ensures
        final(dest)@ == old(dest)@ + types_text(api, templates@),
{
    let ghost start = dest@;
    if let Api::Egl = api {
        dest.append(templates.egl.as_str());
        dest.append(NEWLINE);
        proof {
            assert(dest@ =~= start + types_text(api, templates@));
        }
        return ;
    }
    dest.append(templates.gl.as_str());
    dest.append(NEWLINE);
    match api {
        Api::Glx => {
            dest.append(templates.glx.as_str());
            dest.append(NEWLINE);
        },
        Api::Wgl => {
            dest.append(templates.wgl.as_str());
            dest.append(NEWLINE);
        },
        _ => {},
    }
    proof {
        assert(dest@ =~= start + types_text(api, templates@));
    }
}

/// One parameter as it stands in a list: `name: type`, the type alone or
/// the name alone.
pub open spec fn parameter_text(p: BindingView, with_idents: bool, with_types: bool) -> Seq<char> {
    if with_idents && with_types {
        p.ident + COLON@ + p.ty
    } else if with_types {
        p.ty
    } else {
        p.ident
    }
}

/// The parameters of a list, each as `parameter_text` writes it.
pub open spec fn parameter_texts(
    params: Seq<BindingView>,
    with_idents: bool,
    with_types: bool,
) -> Seq<Seq<char>> {
    Seq::new(params.len(), |i: int| parameter_text(params[i], with_idents, with_types))
}

/// The parameters of `cmd`, in order, with their names, their types or both.
pub fn gen_parameters(cmd: &Cmd, with_idents: bool, with_types: bool) -> (r: Vec<String>)
    requires
        with_idents || with_types,
    ensures
        r.deep_view() == parameter_texts(cmd@.params, with_idents, with_types),
{
    let mut r: Vec<String> = Vec::new();
    let mut i: usize = 0;
    while i < cmd.params.len()
        invariant
            i <= cmd.params.len(),
            r.len() == i,
            forall|k: int|
                0 <= k < i ==> r@[k]@ == parameter_text(cmd.params@[k]@, with_idents, with_types),
        decreases cmd.params.len() - i,
    {
        let binding = &cmd.params[i];
        let mut item = String::new();
        if with_idents && with_types {
            item.append(binding.ident.as_str());
            item.append(COLON);
            item.append(binding.ty.as_str());
        } else if with_types {
            item.append(binding.ty.as_str());
        } else {
            item.append(binding.ident.as_str());
        }
        proof {
            assert(item@ =~= parameter_text(binding@, with_idents, with_types));
        }
        r.push(item);
        i += 1;
    }
    proof {
        assert(r.deep_view() =~= parameter_texts(cmd@.params, with_idents, with_types));
    }
    r
}

pub const PREFIX_GL: &'static str = "gl";

pub const PREFIX_GLX: &'static str = "glX";

pub const PREFIX_WGL: &'static str = "wgl";

pub const PREFIX_EGL: &'static str = "egl";

/// What the native symbols of `api` begin with.
pub open spec fn symbol_prefix(api: Api) -> Seq<char> {
    match api {
        Api::Glx => PREFIX_GLX@,
        Api::Wgl => PREFIX_WGL@,
        Api::Egl => PREFIX_EGL@,
        _ => PREFIX_GL@,
    }
}

/// The native symbol of the command `cmd`: the family's prefix, then the
/// command's bare name.
pub open spec fn symbol_name(api: Api, cmd: Seq<char>) -> Seq<char> {
    symbol_prefix(api) + cmd
}

/// The native symbol name of a command, such as `glClear` or
/// `wglCreateContext`.
pub fn gen_symbol_name(api: Api, cmd: &str) -> (r: String)
    ensures
        r@ == symbol_name(api, cmd@),
{
    let prefix = match api {
        Api::Glx => PREFIX_GLX,
        Api::Wgl => PREFIX_WGL,
        Api::Egl => PREFIX_EGL,
        _ => PREFIX_GL,
    };
    let mut r = String::new();
    r.append(prefix);
    r.append(cmd);
    proof {
        assert(r@ =~= symbol_name(api, cmd@));
    }
    r
}

} // verus!

//! The registry model: commands, constants, fallback names and type aliases of
//! one API family, in the order in which they are to be emitted.

use vstd::prelude::*;
use vstd::string::*;
use crate::error::GenerationError;
use crate::text::{all_distinct, same_text};

verus! {

/// The API family that a registry describes.
#[derive(Clone, Copy, Debug, PartialEq, Eq, Structural)]
pub enum Api {
    Gl,
    Glx,
    Wgl,
    Egl,
    GlCore,
    Gles1,
    Gles2,
    Glsc2,
}

pub const API_GL: &'static str = "gl";

pub const API_GLX: &'static str = "glx";

pub const API_WGL: &'static str = "wgl";

pub const API_EGL: &'static str = "egl";

pub const API_GL_CORE: &'static str = "glcore";

pub const API_GLES1: &'static str = "gles1";

pub const API_GLES2: &'static str = "gles2";

pub const API_GLSC2: &'static str = "glsc2";

impl Api {
    /// The family's name as it is written in messages.
    pub open spec fn name_text(self) -> Seq<char> {
        match self {
            Api::Gl => API_GL@,
            Api::Glx => API_GLX@,
            Api::Wgl => API_WGL@,
            Api::Egl => API_EGL@,
            Api::GlCore => API_GL_CORE@,
            Api::Gles1 => API_GLES1@,
            Api::Gles2 => API_GLES2@,
            Api::Glsc2 => API_GLSC2@,
        }
    }

    /// The family's name as it is written in messages.
    pub fn name(&self) -> (r: &'static str)
        ensures
            r@ == self.name_text(),
    {
        match self {
            Api::Gl => API_GL,
            Api::Glx => API_GLX,
            Api::Wgl => API_WGL,
            Api::Egl => API_EGL,
            Api::GlCore => API_GL_CORE,
            Api::Gles1 => API_GLES1,
            Api::Gles2 => API_GLES2,
            Api::Glsc2 => API_GLSC2,
        }
    }
}

/// A name with its native type signature: a parameter, or a command's
/// prototype (its name and return type).
#[derive(Debug, PartialEq, Eq)]
pub struct Binding {
    pub ident: String,
    pub ty: String,
}

/// What a `Binding` holds: its name and its type signature as sequences of
/// characters.
pub struct BindingView {
    pub ident: Seq<char>,
    pub ty: Seq<char>,
}

impl View for Binding {
    type V = BindingView;

    open spec fn view(&self) -> BindingView {
        BindingView { ident: self.ident@, ty: self.ty@ }
    }
}

impl DeepView for Binding {
    type V = BindingView;

    open spec fn deep_view(&self) -> BindingView {
        self@
    }
}

impl Clone for Binding {
    fn clone(&self) -> (r: Self)
        ensures
            r@ == self@,
    {
        Binding { ident: self.ident.clone(), ty: self.ty.clone() }
    }
}

impl Binding {
    /// The binding of the name `ident` to the type signature `ty`.
    pub fn new(ident: &str, ty: &str) -> (r: Self)
        ensures
            r@ == (BindingView { ident: ident@, ty: ty@ }),
    {
        Binding { ident: ident.to_owned(), ty: ty.to_owned() }
    }
}

/// One native command: its prototype and its parameters in call order.
#[derive(Debug, PartialEq, Eq)]
pub struct Cmd {
    pub proto: Binding,
    pub params: Vec<Binding>,
}

/// What a `Cmd` holds: its prototype and its parameters.
pub struct CmdView {
    pub proto: BindingView,
    pub params: Seq<BindingView>,
}

impl View for Cmd {
    type V = CmdView;

    open spec fn view(&self) -> CmdView {
        CmdView { proto: self.proto@, params: self.params.deep_view() }
    }
}

impl DeepView for Cmd {
    type V = CmdView;

    open spec fn deep_view(&self) -> CmdView {
        self@
    }
}

impl Clone for Cmd {
    fn clone(&self) -> (r: Self)
        ensures
            r@ == self@,
    {
        let mut params: Vec<Binding> = Vec::new();
        let mut i: usize = 0;
        while i < self.params.len()
            invariant
                i <= self.params.len(),
                params.len() == i,
                forall|k: int| 0 <= k < i ==> params@[k]@ == self.params@[k]@,
            decreases self.params.len() - i,
        {
            params.push(self.params[i].clone());
            i += 1;
        }
        proof {
            assert(params.deep_view() =~= self.params.deep_view());
        }
        Cmd { proto: self.proto.clone(), params }
    }
}

/// One named constant of the native API.
#[derive(Debug, PartialEq, Eq)]
pub struct Enum {
    pub ident: String,
    pub value: String,
    /// Whether the value is cast to the declared type where it is used.
    pub cast: bool,
    pub ty: String,
}

/// What an `Enum` holds.
pub struct EnumView {
    pub ident: Seq<char>,
    pub value: Seq<char>,
    pub cast: bool,
    pub ty: Seq<char>,
}

impl View for Enum {
    type V = EnumView;

    open spec fn view(&self) -> EnumView {
        EnumView { ident: self.ident@, value: self.value@, cast: self.cast, ty: self.ty@ }
    }
}

impl DeepView for Enum {
    type V = EnumView;

    open spec fn deep_view(&self) -> EnumView {
        self@
    }
}

/// The fallback names registered for one canonical command name.
#[derive(Debug, PartialEq, Eq)]
pub struct AliasEntry {
    pub name: String,
    pub fallbacks: Vec<String>,
}

/// What an `AliasEntry` holds: a canonical name and its fallback names.
pub struct AliasView {
    pub name: Seq<char>,
    pub fallbacks: Seq<Seq<char>>,
}

impl View for AliasEntry {
    type V = AliasView;

    open spec fn view(&self) -> AliasView {
        AliasView { name: self.name@, fallbacks: self.fallbacks.deep_view() }
    }
}

impl DeepView for AliasEntry {
    type V = AliasView;

    open spec fn deep_view(&self) -> AliasView {
        self@
    }
}

/// The text of the native type aliases, one block per group of families.
#[derive(Debug, PartialEq, Eq)]
pub struct TypeTemplates {
    pub gl: String,
    pub glx: String,
    pub wgl: String,
    pub egl: String,
}

/// What `TypeTemplates` hold.
pub struct TypeTemplatesView {
    pub gl: Seq<char>,
    pub glx: Seq<char>,
    pub wgl: Seq<char>,
    pub egl: Seq<char>,
}

impl View for TypeTemplates {
    type V = TypeTemplatesView;

    open spec fn view(&self) -> TypeTemplatesView {
        TypeTemplatesView { gl: self.gl@, glx: self.glx@, wgl: self.wgl@, egl: self.egl@ }
    }
}

/// Everything that one generation pass reads.
#[derive(Debug, PartialEq, Eq)]
pub struct Registry {
    pub api: Api,
    pub enums: Vec<Enum>,
    pub cmds: Vec<Cmd>,
    pub aliases: Vec<AliasEntry>,
    pub types: TypeTemplates,
    /// Whether the wrappers trace their calls.
    pub trace_calls: bool,
}

/// What a `Registry` holds.
pub struct RegistryView {
    pub api: Api,
    pub enums: Seq<EnumView>,
    pub cmds: Seq<CmdView>,
    pub aliases: Seq<AliasView>,
    pub types: TypeTemplatesView,
    pub trace_calls: bool,
}

impl View for Registry {
    type V = RegistryView;

    open spec fn view(&self) -> RegistryView {
        RegistryView {
            api: self.api,
            enums: self.enums.deep_view(),
            cmds: self.cmds.deep_view(),
            aliases: self.aliases.deep_view(),
            types: self.types@,
            trace_calls: self.trace_calls,
        }
    }
}

/// The fallback names of `name`: those of the first entry registered for it.
pub open spec fn fallbacks_of(aliases: Seq<AliasView>, name: Seq<char>) -> Option<Seq<Seq<char>>>
    decreases aliases.len(),
{
    if aliases.len() == 0 {
        None
    } else if aliases[0].name == name {
        Some(aliases[0].fallbacks)
    } else {
        fallbacks_of(aliases.skip(1), name)
    }
}

/// Looks up the entry that holds the fallback names of `name`.
pub fn find_fallbacks<'a>(aliases: &'a Vec<AliasEntry>, name: &str) -> (r: Option<&'a Vec<String>>)
    ensures
        match r {
            Some(v) => fallbacks_of(aliases.deep_view(), name@) == Some(v.deep_view()),
            None => fallbacks_of(aliases.deep_view(), name@).is_none(),
        },
{
    let mut i: usize = 0;
    proof {
        assert(aliases.deep_view().skip(0) =~= aliases.deep_view());
    }
    while i < aliases.len()
        invariant
            i <= aliases.len(),
            fallbacks_of(aliases.deep_view(), name@) == fallbacks_of(
                aliases.deep_view().skip(i as int),
                name@,
            ),
        decreases aliases.len() - i,
    {
        let ghost rest = aliases.deep_view().skip(i as int);
        proof {
            assert(rest[0] == aliases[i as int]@);
            assert(rest.skip(1) =~= aliases.deep_view().skip(i + 1));
        }
        if same_text(aliases[i].name.as_str(), name) {
            return Some(&aliases[i].fallbacks);
        }
        i += 1;
    }
    None
}

/// Whether the prototype of `cmd` and each of its parameters has a type
/// signature, be it that of the empty return type.
pub open spec fn cmd_typed(cmd: CmdView) -> bool {
    &&& cmd.proto.ty.len() > 0
    &&& forall|i: int| 0 <= i < cmd.params.len() ==> (#[trigger] cmd.params[i]).ty.len() > 0
}

/// Whether every command is typed throughout.
pub open spec fn all_typed(cmds: Seq<CmdView>) -> bool {
    forall|i: int| 0 <= i < cmds.len() ==> cmd_typed(#[trigger] cmds[i])
}

/// The canonical names that the alias table registers, in its order.
pub open spec fn alias_names(aliases: Seq<AliasView>) -> Seq<Seq<char>> {
    Seq::new(aliases.len(), |i: int| aliases[i].name)
}

/// Whether the alias table registers each canonical name once.
pub open spec fn aliases_consistent(aliases: Seq<AliasView>) -> bool {
    alias_names(aliases).no_duplicates()
}

/// What is wrong with a registry, if anything: a missing type signature
/// first, a name with two alias entries after.
pub open spec fn registry_fault(registry: RegistryView) -> Option<GenerationError> {
    if !all_typed(registry.cmds) {
        Some(GenerationError::MissingType)
    } else if !aliases_consistent(registry.aliases) {
        Some(GenerationError::InconsistentAliases)
    } else {
        None
    }
}

fn is_typed(cmd: &Cmd) -> (r: bool)
    ensures
        r == cmd_typed(cmd@),
{
    if cmd.proto.ty.as_str().is_empty() {
        return false;
    }
    let mut i: usize = 0;
    while i < cmd.params.len()
        invariant
            i <= cmd.params.len(),
            cmd.proto.ty@.len() > 0,
            forall|k: int| 0 <= k < i ==> (#[trigger] cmd@.params[k]).ty.len() > 0,
        decreases cmd.params.len() - i,
    {
        if cmd.params[i].ty.as_str().is_empty() {
            proof {
                assert(cmd@.params[i as int].ty.len() == 0);
            }
            return false;
        }
        i += 1;
    }
    true
}

impl Registry {
    /// Accepts the registry if every command is typed throughout and no
    /// canonical name has two alias entries.
    pub fn check(&self) -> (r: Result<(), GenerationError>)
        ensures
            match r {
                Ok(_) => registry_fault(self@).is_none(),
                Err(e) => registry_fault(self@) == Some(e),
            },
    {
        let mut i: usize = 0;
        while i < self.cmds.len()
            invariant
                i <= self.cmds.len(),
                forall|k: int| 0 <= k < i ==> cmd_typed(#[trigger] self@.cmds[k]),
            decreases self.cmds.len() - i,
        {
            if !is_typed(&self.cmds[i]) {
                proof {
                    assert(!cmd_typed(self@.cmds[i as int]));
                }
                return Err(GenerationError::MissingType);
            }
            i += 1;
        }
        let mut names: Vec<String> = Vec::new();
        let mut j: usize = 0;
        while j < self.aliases.len()
            invariant
                j <= self.aliases.len(),
                names.len() == j,
                forall|k: int| 0 <= k < j ==> names@[k]@ == self.aliases@[k].name@,
            decreases self.aliases.len() - j,
        {
            names.push(self.aliases[j].name.clone());
            j += 1;
        }
        proof {
            assert(names.deep_view() =~= alias_names(self@.aliases));
        }
        if all_distinct(&names) {
            Ok(())
        } else {
            Err(GenerationError::InconsistentAliases)
        }
    }
}

} // verus!

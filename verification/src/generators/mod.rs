//! The generators and what they share: the names and the parameter lists that
//! every binding set is written with.

use crate::registry::{fallbacks_of, Api, BindingView, Cmd, CmdView, Registry, RegistryView};
use crate::text::{join, joined};
use vstd::prelude::*;
use vstd::string::*;

pub mod common;
pub mod debug_struct_gen;
pub mod global_gen;
pub mod static_gen;
pub mod static_struct_gen;
pub mod struct_gen;
pub mod types;

pub use self::common::gen_enum_item;
pub use self::types::gen_types;

verus! {

/// A way of writing a registry out as the source text of a binding set.
pub trait Generator {
    /// The text written for `registry`.
    spec fn text(&self, registry: RegistryView) -> Seq<char>;

    /// Appends the whole binding set for `registry` to `dest`.
    fn write(&self, registry: &Registry, dest: &mut String)
        ensures
            final(dest)@ == old(dest)@ + self.text(registry@),
    ;
}

pub const STRUCT_GL: &'static str = "Gl";

pub const STRUCT_GLX: &'static str = "Glx";

pub const STRUCT_WGL: &'static str = "Wgl";

pub const STRUCT_EGL: &'static str = "Egl";

pub const STRUCT_GLCORE: &'static str = "GlCore";

pub const STRUCT_GLES1: &'static str = "Gles1";

pub const STRUCT_GLES2: &'static str = "Gles2";

pub const STRUCT_GLSC2: &'static str = "Glsc2";

/// The name of the structure that holds the bindings of an API family.
pub open spec fn struct_name(api: Api) -> Seq<char> {
    match api {
        Api::Gl => STRUCT_GL@,
        Api::Glx => STRUCT_GLX@,
        Api::Wgl => STRUCT_WGL@,
        Api::Egl => STRUCT_EGL@,
        Api::GlCore => STRUCT_GLCORE@,
        Api::Gles1 => STRUCT_GLES1@,
        Api::Gles2 => STRUCT_GLES2@,
        Api::Glsc2 => STRUCT_GLSC2@,
    }
}

pub fn gen_struct_name(api: Api) -> (r: &'static str)
    ensures
        r@ == struct_name(api),
{
    match api {
        Api::Gl => STRUCT_GL,
        Api::Glx => STRUCT_GLX,
        Api::Wgl => STRUCT_WGL,
        Api::Egl => STRUCT_EGL,
        Api::GlCore => STRUCT_GLCORE,
        Api::Gles1 => STRUCT_GLES1,
        Api::Gles2 => STRUCT_GLES2,
        Api::Glsc2 => STRUCT_GLSC2,
    }
}

pub const SYMBOL_GL: &'static str = "gl";

pub const SYMBOL_GLX: &'static str = "glX";

pub const SYMBOL_WGL: &'static str = "wgl";

pub const SYMBOL_EGL: &'static str = "egl";

/// What an API family puts in front of a command's name to form its symbol.
pub open spec fn symbol_prefix(api: Api) -> Seq<char> {
    match api {
        Api::Gl | Api::GlCore | Api::Gles1 | Api::Gles2 | Api::Glsc2 => SYMBOL_GL@,
        Api::Glx => SYMBOL_GLX@,
        Api::Wgl => SYMBOL_WGL@,
        Api::Egl => SYMBOL_EGL@,
    }
}

/// The symbol under which the command `cmd` is linked or looked up.
pub open spec fn symbol_name(api: Api, cmd: Seq<char>) -> Seq<char> {
    symbol_prefix(api) + cmd
}

pub fn gen_symbol_name(api: Api, cmd: &str) -> (r: String)
    ensures
        r@ == symbol_name(api, cmd@),
{
    let prefix = match api {
        Api::Gl | Api::GlCore | Api::Gles1 | Api::Gles2 | Api::Glsc2 => SYMBOL_GL,
        Api::Glx => SYMBOL_GLX,
        Api::Wgl => SYMBOL_WGL,
        Api::Egl => SYMBOL_EGL,
    };
    let mut symbol = String::from_str(prefix);
    symbol.append(cmd);
    symbol
}

/// Between a parameter's name and its type.
pub const TYPED: &'static str = ": ";

/// Between the members of a list.
pub const COMMA: &'static str = ", ";

/// One parameter, written with its name, its type, or both.
pub open spec fn parameter(binding: BindingView, with_idents: bool, with_types: bool) -> Seq<
    char,
> {
    if with_idents && with_types {
        binding.ident + TYPED@ + binding.ty
    } else if with_types {
        binding.ty
    } else if with_idents {
        binding.ident
    } else {
        Seq::empty()
    }
}

/// The parameters of `cmd` in their order, each written as the two flags say.
pub open spec fn parameters(cmd: CmdView, with_idents: bool, with_types: bool) -> Seq<Seq<char>> {
    Seq::new(cmd.params.len(), |i: int| parameter(cmd.params[i], with_idents, with_types))
}

pub fn gen_parameters(cmd: &Cmd, with_idents: bool, with_types: bool) -> (r: Vec<String>)
    ensures
        r.deep_view() == parameters(cmd@, with_idents, with_types),
{
    let mut out: Vec<String> = Vec::new();
    let mut i: usize = 0;
    while i < cmd.params.len()
        invariant
            i <= cmd.params.len(),
            out.len() == i,
            forall|k: int|
                0 <= k < i ==> out@[k]@ == parameter(
                    #[trigger] cmd@.params[k],
                    with_idents,
                    with_types,
                ),
        decreases cmd.params.len() - i,
    {
        let binding = &cmd.params[i];
        let mut one = String::new();
        if with_idents {
            one.append(binding.ident.as_str());
        }
        if with_idents && with_types {
            one.append(TYPED);
        }
        if with_types {
            one.append(binding.ty.as_str());
        }
        assert(one@ =~= parameter(cmd@.params[i as int], with_idents, with_types));
        out.push(one);
        i += 1;
    }
    assert(out.deep_view() =~= parameters(cmd@, with_idents, with_types));
    out
}

/// The parameters of `cmd` as one comma-separated list.
pub open spec fn parameter_list(cmd: CmdView, with_idents: bool, with_types: bool) -> Seq<char> {
    joined(parameters(cmd, with_idents, with_types), COMMA@)
}

pub fn gen_parameter_list(cmd: &Cmd, with_idents: bool, with_types: bool) -> (r: String)
    ensures
        r@ == parameter_list(cmd@, with_idents, with_types),
{
    let params = gen_parameters(cmd, with_idents, with_types);
    join(&params, COMMA)
}

/// The return type of a command that returns no value.
pub const NO_VALUE: &'static str = "()";

pub const ARROW: &'static str = "-> ";

/// What follows a parameter list for the return type `ty`: nothing where the
/// command returns no value, else an arrow and the type.
pub open spec fn return_suffix(ty: Seq<char>) -> Seq<char> {
    if ty == NO_VALUE@ {
        Seq::empty()
    } else {
        ARROW@ + ty
    }
}

pub fn gen_return_suffix(ty: &String) -> (r: String)
    ensures
        r@ == return_suffix(ty@),
{
    let no_value = String::from_str(NO_VALUE);
    if *ty == no_value {
        String::new()
    } else {
        let mut suffix = String::from_str(ARROW);
        suffix.append(ty.as_str());
        suffix
    }
}

/// The text of a command's signature, as every generator writes it.
pub struct Signature {
    /// The parameters with names and types, as a declaration lists them.
    pub params: String,
    /// The parameters' types alone, as a function pointer type lists them.
    pub types: String,
    /// The parameters' names alone, as a call passes them.
    pub idents: String,
    /// What follows the parameter list for the return type.
    pub ret: String,
}

pub struct SignatureView {
    pub params: Seq<char>,
    pub types: Seq<char>,
    pub idents: Seq<char>,
    pub ret: Seq<char>,
}

impl View for Signature {
    type V = SignatureView;

    open spec fn view(&self) -> SignatureView {
        SignatureView {
            params: self.params@,
            types: self.types@,
            idents: self.idents@,
            ret: self.ret@,
        }
    }
}

/// The signature of `cmd`: its three parameter lists, all taken from the one
/// sequence of its parameters, and its return suffix.
pub open spec fn signature(cmd: CmdView) -> SignatureView {
    SignatureView {
        params: parameter_list(cmd, true, true),
        types: parameter_list(cmd, false, true),
        idents: parameter_list(cmd, true, false),
        ret: return_suffix(cmd.proto.ty),
    }
}

pub fn gen_signature(cmd: &Cmd) -> (r: Signature)
    ensures
        r@ == signature(cmd@),
{
    Signature {
        params: gen_parameter_list(cmd, true, true),
        types: gen_parameter_list(cmd, false, true),
        idents: gen_parameter_list(cmd, true, false),
        ret: gen_return_suffix(&cmd.proto.ty),
    }
}

/// A command that returns no value, and no other, gets no return suffix: its
/// declaration and the function pointer type of its call end with the
/// parameter list. Every other command gets an arrow and its return type.
pub proof fn lemma_return_suffix(ty: Seq<char>)
    ensures
        ty == NO_VALUE@ <==> return_suffix(ty).len() == 0,
        ty != NO_VALUE@ ==> return_suffix(ty) == ARROW@ + ty,
{
    reveal_strlit("-> ");
}

/// The three ways of writing a command's parameters follow the one sequence
/// of its parameters: each has one member for each parameter, in the same
/// order, and the member of a declaration is the name as a call passes it, a
/// colon, and the type as a function pointer type lists it.
pub proof fn lemma_parameters_agree(cmd: CmdView)
    ensures
        parameters(cmd, true, true).len() == cmd.params.len(),
        parameters(cmd, true, false).len() == cmd.params.len(),
        parameters(cmd, false, true).len() == cmd.params.len(),
        forall|i: int|
            0 <= i < cmd.params.len() ==> {
                &&& parameters(cmd, true, false)[i] == cmd.params[i].ident
                &&& parameters(cmd, false, true)[i] == cmd.params[i].ty
                &&& #[trigger] parameters(cmd, true, true)[i] == parameters(cmd, true, false)[i]
                    + TYPED@ + parameters(cmd, false, true)[i]
            },
{
}

pub const QUOTE: &'static str = "\"";

/// The symbol of each of `names`, in their order.
pub open spec fn symbols(api: Api, names: Seq<Seq<char>>) -> Seq<Seq<char>> {
    Seq::new(names.len(), |i: int| symbol_name(api, names[i]))
}

/// The symbol of each of `names`, in double quotes.
pub open spec fn quoted_symbols(api: Api, names: Seq<Seq<char>>) -> Seq<Seq<char>> {
    Seq::new(names.len(), |i: int| QUOTE@ + symbols(api, names)[i] + QUOTE@)
}

/// The symbols of `names` as the members of a list of string literals.
/// For no names it is empty.
pub open spec fn symbol_list(api: Api, names: Seq<Seq<char>>) -> Seq<char> {
    joined(quoted_symbols(api, names), COMMA@)
}

/// The symbols that are tried after the symbol of the command `name` itself,
/// as the members of a list of string literals.
pub open spec fn fallback_symbols(registry: RegistryView, name: Seq<char>) -> Seq<char> {
    symbol_list(registry.api, fallbacks_of(registry.aliases, name))
}

pub fn gen_fallback_symbols(registry: &Registry, name: &String) -> (r: String)
    ensures
        r@ == fallback_symbols(registry@, name@),
{
    match registry.fallbacks(name) {
        Some(names) => gen_symbol_list(registry.api, names),
        None => String::new(),
    }
}

pub fn gen_symbols(api: Api, names: &Vec<String>) -> (r: Vec<String>)
    ensures
        r.deep_view() == symbols(api, names.deep_view()),
{
    let mut out: Vec<String> = Vec::new();
    let mut i: usize = 0;
    while i < names.len()
        invariant
            i <= names.len(),
            out.len() == i,
            forall|k: int| 0 <= k < i ==> #[trigger] out@[k]@ == symbol_name(api, names@[k]@),
        decreases names.len() - i,
    {
        out.push(gen_symbol_name(api, names[i].as_str()));
        i += 1;
    }
    assert(out.deep_view() =~= symbols(api, names.deep_view()));
    out
}

pub fn gen_symbol_list(api: Api, names: &Vec<String>) -> (r: String)
    ensures
        r@ == symbol_list(api, names.deep_view()),
{
    let plain = gen_symbols(api, names);
    let mut quoted: Vec<String> = Vec::new();
    let mut i: usize = 0;
    while i < plain.len()
        invariant
            i <= plain.len(),
            quoted.len() == i,
            forall|k: int| 0 <= k < i ==> #[trigger] quoted@[k]@ == QUOTE@ + plain@[k]@ + QUOTE@,
        decreases plain.len() - i,
    {
        let mut one = String::from_str(QUOTE);
        one.append(plain[i].as_str());
        one.append(QUOTE);
        quoted.push(one);
        i += 1;
    }
    let ghost wanted = quoted_symbols(api, names.deep_view());
    assert(plain.deep_view().len() == plain.len());
    assert(names.deep_view().len() == names.len());
    assert(quoted.deep_view().len() == wanted.len());
    assert forall|k: int| 0 <= k < quoted.len() implies #[trigger] quoted.deep_view()[k]
        == wanted[k] by {
        assert(plain.deep_view()[k] == plain@[k]@);
        assert(plain.deep_view()[k] == symbols(api, names.deep_view())[k]);
        assert(quoted.deep_view()[k] == quoted@[k]@);
        assert(wanted[k] == QUOTE@ + symbols(api, names.deep_view())[k] + QUOTE@);
    }
    assert(quoted.deep_view() =~= quoted_symbols(api, names.deep_view()));
    join(&quoted, COMMA)
}

} // verus!

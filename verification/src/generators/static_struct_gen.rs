//! Bindings to symbols that the linker resolves, behind the methods of a
//! structure without fields, so that they are used as the loaded structure is.

use crate::generators::common::{
    enums_text, header_text, struct_text, type_aliases_text, write_enums, write_header,
    write_struct, write_type_aliases,
};
use crate::generators::{
    gen_signature, gen_struct_name, gen_symbol_name, signature, struct_name, symbol_name,
    Generator,
};
use crate::registry::{Api, Cmd, CmdView, Registry, RegistryView};
use crate::text::lemma_flatten_next;
use vstd::prelude::*;
use vstd::string::*;

verus! {

pub struct StaticStructGenerator;

impl Generator for StaticStructGenerator {
    open spec fn text(&self, registry: RegistryView) -> Seq<char> {
        header_text(false) + type_aliases_text(registry) + enums_text(registry) + struct_text(
            registry,
            true,
        ) + impl_text(registry) + fns_text(registry)
    }

    fn write(&self, registry: &Registry, dest: &mut String) {
        write_header(dest, false);
        write_type_aliases(registry, dest);
        write_enums(registry, dest);
        write_struct(registry, dest, true);
        write_impl(registry, dest);
        write_fns(registry, dest);
        assert(dest@ =~= old(dest)@ + self.text(registry@));
    }
}

pub const IMPL_OPEN: &'static str = "impl ";

pub const LOAD_WITH_OPEN: &'static str = " {
            /// Stub function.
            #[allow(dead_code)]
            pub fn load_with<F>(mut _loadfn: F) -> ";

pub const LOAD_WITH_BODY: &'static str = " where F: FnMut(&'static str) -> *const __gl_imports::raw::c_void {
                ";

pub const LOAD_WITH_CLOSE: &'static str = "
            }
";

pub const METHOD_OPEN: &'static str = "#[allow(non_snake_case)]
            // #[allow(unused_variables)]
            #[allow(dead_code)]
            #[inline]
            pub unsafe fn ";

pub const METHOD_PARAMS: &'static str = "(&self, ";

pub const METHOD_PARAMS_END: &'static str = ")";

pub const METHOD_BODY: &'static str = " {
                ";

pub const METHOD_ARGS: &'static str = "(";

pub const METHOD_CLOSE: &'static str = ")
            }
";

pub const IMPL_CLOSE: &'static str = "}
";

/// The head of the `impl` block with the function `load_with`, which looks
/// nothing up and returns the structure.
pub open spec fn load_with_text(api: Api) -> Seq<char> {
    IMPL_OPEN@ + struct_name(api) + LOAD_WITH_OPEN@ + struct_name(api) + LOAD_WITH_BODY@
        + struct_name(api) + LOAD_WITH_CLOSE@
}

/// The method that hands its arguments on to the foreign function of `cmd`.
pub open spec fn method_text(cmd: CmdView) -> Seq<char> {
    let sig = signature(cmd);
    METHOD_OPEN@ + cmd.proto.ident + METHOD_PARAMS@ + sig.params + METHOD_PARAMS_END@ + sig.ret
        + METHOD_BODY@ + cmd.proto.ident + METHOD_ARGS@ + sig.idents + METHOD_CLOSE@
}

/// The methods of the structure, one for each command in its order.
pub open spec fn methods(registry: RegistryView) -> Seq<Seq<char>> {
    Seq::new(registry.cmds.len(), |i: int| method_text(registry.cmds[i]))
}

/// The `impl` block of the structure: `load_with`, then one method for each
/// command.
pub open spec fn impl_text(registry: RegistryView) -> Seq<char> {
    load_with_text(registry.api) + methods(registry).flatten() + IMPL_CLOSE@
}

/// Writes the method that hands its arguments on to the foreign function of
/// `cmd`.
pub fn write_method(cmd: &Cmd, dest: &mut String)
    ensures
        final(dest)@ == old(dest)@ + method_text(cmd@),
{
    let sig = gen_signature(cmd);
    let name = cmd.proto.ident.as_str();
    dest.append(METHOD_OPEN);
    dest.append(name);
    dest.append(METHOD_PARAMS);
    dest.append(sig.params.as_str());
    dest.append(METHOD_PARAMS_END);
    dest.append(sig.ret.as_str());
    dest.append(METHOD_BODY);
    dest.append(name);
    dest.append(METHOD_ARGS);
    dest.append(sig.idents.as_str());
    dest.append(METHOD_CLOSE);
    assert(dest@ =~= old(dest)@ + method_text(cmd@));
}

/// Writes the `impl` block of the structure that `write_struct` declares.
pub fn write_impl(registry: &Registry, dest: &mut String)
    ensures
        final(dest)@ == old(dest)@ + impl_text(registry@),
{
    let api = gen_struct_name(registry.api);
    dest.append(IMPL_OPEN);
    dest.append(api);
    dest.append(LOAD_WITH_OPEN);
    dest.append(api);
    dest.append(LOAD_WITH_BODY);
    dest.append(api);
    dest.append(LOAD_WITH_CLOSE);
    assert(dest@ =~= old(dest)@ + load_with_text(registry.api));
    let ghost lines = methods(registry@);
    let ghost start = dest@;
    let mut i: usize = 0;
    while i < registry.cmds.len()
        invariant
            i <= registry.cmds.len(),
            lines == methods(registry@),
            dest@ == start + lines.take(i as int).flatten(),
        decreases registry.cmds.len() - i,
    {
        write_method(&registry.cmds[i], dest);
        proof {
            lemma_flatten_next(lines, i as int);
            assert(dest@ =~= start + lines.take(i + 1).flatten());
        }
        i += 1;
    }
    assert(lines.take(lines.len() as int) == lines);
    dest.append(IMPL_CLOSE);
    assert(dest@ =~= old(dest)@ + impl_text(registry@));
}

pub const FNS_OPEN: &'static str = "
        #[allow(non_snake_case)]
        #[allow(unused_variables)]
        #[allow(dead_code)]
        extern \"system\" {
";

pub const FNS_CLOSE: &'static str = "}
";

pub const DECL_OPEN: &'static str = "#[link_name=\"";

pub const DECL_NAME: &'static str = "\"] fn ";

pub const DECL_PARAMS: &'static str = "(";

pub const DECL_PARAMS_END: &'static str = ")";

pub const DECL_CLOSE: &'static str = ";
";

/// The declaration of `cmd` as a foreign function, linked under its symbol
/// and private to the bindings.
pub open spec fn decl_text(api: Api, cmd: CmdView) -> Seq<char> {
    let sig = signature(cmd);
    DECL_OPEN@ + symbol_name(api, cmd.proto.ident) + DECL_NAME@ + cmd.proto.ident + DECL_PARAMS@
        + sig.params + DECL_PARAMS_END@ + sig.ret + DECL_CLOSE@
}

/// The declarations of the registry's commands, in their order.
pub open spec fn decls(registry: RegistryView) -> Seq<Seq<char>> {
    Seq::new(registry.cmds.len(), |i: int| decl_text(registry.api, registry.cmds[i]))
}

/// The block of foreign functions, one for each command.
pub open spec fn fns_text(registry: RegistryView) -> Seq<char> {
    FNS_OPEN@ + decls(registry).flatten() + FNS_CLOSE@
}

/// Writes the declaration of `cmd` as a foreign function.
pub fn write_decl(api: Api, cmd: &Cmd, dest: &mut String)
    ensures
        final(dest)@ == old(dest)@ + decl_text(api, cmd@),
{
    let sig = gen_signature(cmd);
    let symbol = gen_symbol_name(api, cmd.proto.ident.as_str());
    dest.append(DECL_OPEN);
    dest.append(symbol.as_str());
    dest.append(DECL_NAME);
    dest.append(cmd.proto.ident.as_str());
    dest.append(DECL_PARAMS);
    dest.append(sig.params.as_str());
    dest.append(DECL_PARAMS_END);
    dest.append(sig.ret.as_str());
    dest.append(DECL_CLOSE);
    assert(dest@ =~= old(dest)@ + decl_text(api, cmd@));
}

/// Writes the functions that the methods call: foreign functions, which have
/// no body.
pub fn write_fns(registry: &Registry, dest: &mut String)
    ensures
        final(dest)@ == old(dest)@ + fns_text(registry@),
{
    dest.append(FNS_OPEN);
    let ghost lines = decls(registry@);
    let ghost start = dest@;
    let mut i: usize = 0;
    while i < registry.cmds.len()
        invariant
            i <= registry.cmds.len(),
            lines == decls(registry@),
            dest@ == start + lines.take(i as int).flatten(),
        decreases registry.cmds.len() - i,
    {
        write_decl(registry.api, &registry.cmds[i], dest);
        proof {
            lemma_flatten_next(lines, i as int);
            assert(dest@ =~= start + lines.take(i + 1).flatten());
        }
        i += 1;
    }
    assert(lines.take(lines.len() as int) == lines);
    dest.append(FNS_CLOSE);
    assert(dest@ =~= old(dest)@ + fns_text(registry@));
}

} // verus!

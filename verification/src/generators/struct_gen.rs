//! Bindings held in a structure: any number of instances, each loaded through
//! a function that looks symbols up.

use crate::generators::common::{
    fnptr_struct_def_text, header_text, panicking_fns_text, struct_text, type_aliases_text,
    enums_text, write_enums, write_fnptr_struct_def, write_header, write_panicking_fns,
    write_struct, write_type_aliases,
};
use crate::generators::{
    fallback_symbols, gen_fallback_symbols, gen_signature, gen_struct_name, gen_symbol_name,
    signature, struct_name, symbol_name, Generator,
};
use crate::registry::{Cmd, CmdView, Registry, RegistryView};
use crate::text::lemma_flatten_next;
use vstd::prelude::*;
use vstd::string::*;

verus! {

pub struct StructGenerator;

impl Generator for StructGenerator {
    open spec fn text(&self, registry: RegistryView) -> Seq<char> {
        header_text(true) + type_aliases_text(registry) + enums_text(registry)
            + fnptr_struct_def_text(false) + panicking_fns_text(registry) + struct_text(
            registry,
            false,
        ) + impl_text(registry)
    }

    fn write(&self, registry: &Registry, dest: &mut String) {
        write_header(dest, true);
        write_type_aliases(registry, dest);
        write_enums(registry, dest);
        write_fnptr_struct_def(dest, false);
        write_panicking_fns(registry, dest);
        write_struct(registry, dest, false);
        write_impl(registry, dest);
        assert(dest@ =~= old(dest)@ + self.text(registry@));
    }
}

pub const IMPL_OPEN: &'static str = "impl ";

pub const LOAD_WITH_OPEN: &'static str = " {
            /// Load each OpenGL symbol using a custom load function. This allows for the
            /// use of functions like `glfwGetProcAddress` or `SDL_GL_GetProcAddress`.
            ///
            /// ~~~ignore
            /// let gl = Gl::load_with(|s| glfw.get_proc_address(s));
            /// ~~~
            #[allow(dead_code, unused_variables)]
            pub fn load_with<F>(mut loadfn: F) -> ";

pub const LOAD_WITH_BODY: &'static str = " where F: FnMut(&'static str) -> *const __gl_imports::raw::c_void {
                #[inline(never)]
                fn do_metaloadfn(loadfn: &mut dyn FnMut(&'static str) -> *const __gl_imports::raw::c_void,
                                 symbol: &'static str,
                                 symbols: &[&'static str])
                                 -> *const __gl_imports::raw::c_void {
                    let mut ptr = loadfn(symbol);
                    if ptr.is_null() {
                        for &sym in symbols {
                            ptr = loadfn(sym);
                            if !ptr.is_null() { break; }
                        }
                    }
                    ptr
                }
                let mut metaloadfn = |symbol: &'static str, symbols: &[&'static str]| {
                    do_metaloadfn(&mut loadfn, symbol, symbols)
                };
                ";

pub const LOAD_WITH_FIELDS: &'static str = " {
";

pub const ENTRY_NEW: &'static str = ": FnPtr::new(metaloadfn(\"";

pub const ENTRY_FALLBACKS: &'static str = "\", &[";

pub const ENTRY_CLOSE: &'static str = "])),
";

pub const LOAD_WITH_CLOSE: &'static str = "_priv: ()
}
        }
";

/// The field of the new instance that loads `cmd`: its symbol is looked up,
/// then the symbols of its fallbacks in their order.
pub open spec fn loader_entry_text(registry: RegistryView, cmd: CmdView) -> Seq<char> {
    cmd.proto.ident + ENTRY_NEW@ + symbol_name(registry.api, cmd.proto.ident) + ENTRY_FALLBACKS@
        + fallback_symbols(registry, cmd.proto.ident) + ENTRY_CLOSE@
}

/// The loading fields of the new instance, one for each command in its order.
pub open spec fn loader_entries(registry: RegistryView) -> Seq<Seq<char>> {
    Seq::new(registry.cmds.len(), |i: int| loader_entry_text(registry, registry.cmds[i]))
}

/// The head of the `impl` block with the function `load_with`, which builds a
/// new instance by loading every command.
pub open spec fn load_with_text(registry: RegistryView) -> Seq<char> {
    IMPL_OPEN@ + struct_name(registry.api) + LOAD_WITH_OPEN@ + struct_name(registry.api)
        + LOAD_WITH_BODY@ + struct_name(registry.api) + LOAD_WITH_FIELDS@ + loader_entries(
        registry,
    ).flatten() + LOAD_WITH_CLOSE@
}

/// Writes the head of the `impl` block with the function `load_with`.
pub fn write_load_with(registry: &Registry, dest: &mut String)
    ensures
        final(dest)@ == old(dest)@ + load_with_text(registry@),
{
    let api = gen_struct_name(registry.api);
    dest.append(IMPL_OPEN);
    dest.append(api);
    dest.append(LOAD_WITH_OPEN);
    dest.append(api);
    dest.append(LOAD_WITH_BODY);
    dest.append(api);
    dest.append(LOAD_WITH_FIELDS);
    let ghost entries = loader_entries(registry@);
    let ghost start = dest@;
    let mut i: usize = 0;
    while i < registry.cmds.len()
        invariant
            i <= registry.cmds.len(),
            entries == loader_entries(registry@),
            dest@ == start + entries.take(i as int).flatten(),
        decreases registry.cmds.len() - i,
    {
        let cmd = &registry.cmds[i];
        let symbol = gen_symbol_name(registry.api, cmd.proto.ident.as_str());
        let fallbacks = gen_fallback_symbols(registry, &cmd.proto.ident);
        dest.append(cmd.proto.ident.as_str());
        dest.append(ENTRY_NEW);
        dest.append(symbol.as_str());
        dest.append(ENTRY_FALLBACKS);
        dest.append(fallbacks.as_str());
        dest.append(ENTRY_CLOSE);
        proof {
            lemma_flatten_next(entries, i as int);
            assert(dest@ =~= start + entries.take(i + 1).flatten());
        }
        i += 1;
    }
    assert(entries.take(entries.len() as int) == entries);
    dest.append(LOAD_WITH_CLOSE);
    assert(dest@ =~= old(dest)@ + load_with_text(registry@));
}

pub const METHOD_OPEN: &'static str = "#[allow(non_snake_case, unused_variables, dead_code)]
            #[inline] pub unsafe fn ";

pub const METHOD_PARAMS: &'static str = "(&self, ";

pub const METHOD_PARAMS_END: &'static str = ")";

pub const METHOD_CAST: &'static str = " { __gl_imports::mem::transmute::<_, extern \"system\" fn(";

pub const METHOD_SLOT: &'static str = ">(self.";

pub const METHOD_CALL: &'static str = ".f)(";

pub const METHOD_CLOSE: &'static str = ") }
";

/// The method that calls `cmd` through its slot. The declaration and the
/// function pointer type that the slot is cast to are written from the one
/// signature of `cmd`.
pub open spec fn method_text(cmd: CmdView) -> Seq<char> {
    let sig = signature(cmd);
    METHOD_OPEN@ + cmd.proto.ident + METHOD_PARAMS@ + sig.params + METHOD_PARAMS_END@ + sig.ret
        + METHOD_CAST@ + sig.types + METHOD_PARAMS_END@ + sig.ret + METHOD_SLOT@ + cmd.proto.ident
        + METHOD_CALL@ + sig.idents + METHOD_CLOSE@
}

/// The methods of the structure, one for each command in its order.
pub open spec fn methods(registry: RegistryView) -> Seq<Seq<char>> {
    Seq::new(registry.cmds.len(), |i: int| method_text(registry.cmds[i]))
}

pub const IMPL_CLOSE: &'static str = "}

        unsafe impl __gl_imports::Send for ";

pub const SEND_CLOSE: &'static str = " {}
";

/// The end of the `impl` block, and the declaration that the structure may be
/// handed to another thread.
pub open spec fn impl_close_text(registry: RegistryView) -> Seq<char> {
    IMPL_CLOSE@ + struct_name(registry.api) + SEND_CLOSE@
}

/// Writes the end of the `impl` block and what follows it.
pub fn write_impl_close(registry: &Registry, dest: &mut String)
    ensures
        final(dest)@ == old(dest)@ + impl_close_text(registry@),
{
    dest.append(IMPL_CLOSE);
    dest.append(gen_struct_name(registry.api));
    dest.append(SEND_CLOSE);
    assert(dest@ =~= old(dest)@ + impl_close_text(registry@));
}

/// The `impl` block of the bindings structure: `load_with`, then one method
/// for each command.
pub open spec fn impl_text(registry: RegistryView) -> Seq<char> {
    load_with_text(registry) + methods(registry).flatten() + impl_close_text(registry)
}

/// Writes the method that calls `cmd` through its slot.
pub fn write_method(cmd: &Cmd, dest: &mut String)
    ensures
        final(dest)@ == old(dest)@ + method_text(cmd@),
{
    let sig = gen_signature(cmd);
    let name = cmd.proto.ident.as_str();
    dest.append(METHOD_OPEN);
    dest.append(name);
    dest.append(METHOD_PARAMS);
    dest.append(sig.params.as_str());
    dest.append(METHOD_PARAMS_END);
    dest.append(sig.ret.as_str());
    dest.append(METHOD_CAST);
    dest.append(sig.types.as_str());
    dest.append(METHOD_PARAMS_END);
    dest.append(sig.ret.as_str());
    dest.append(METHOD_SLOT);
    dest.append(name);
    dest.append(METHOD_CALL);
    dest.append(sig.idents.as_str());
    dest.append(METHOD_CLOSE);
    assert(dest@ =~= old(dest)@ + method_text(cmd@));
}

/// Writes the `impl` block of the structure that `write_struct` declares.
pub fn write_impl(registry: &Registry, dest: &mut String)
    ensures
        final(dest)@ == old(dest)@ + impl_text(registry@),
{
    write_load_with(registry, dest);
    let ghost lines = methods(registry@);
    let ghost start = dest@;
    let mut i: usize = 0;
    while i < registry.cmds.len()
        invariant
            i <= registry.cmds.len(),
            lines == methods(registry@),
            dest@ == start + lines.take(i as int).flatten(),
        decreases registry.cmds.len() - i,
    {
        write_method(&registry.cmds[i], dest);
        proof {
            lemma_flatten_next(lines, i as int);
            assert(dest@ =~= start + lines.take(i + 1).flatten());
        }
        i += 1;
    }
    assert(lines.take(lines.len() as int) == lines);
    write_impl_close(registry, dest);
    assert(dest@ =~= old(dest)@ + impl_text(registry@));
}

} // verus!

//! Bindings held in one table for the whole process: free functions that call
//! through a static slot for each command, a loader for each command, and one
//! loader that runs them all in the order of the registry.

use crate::generators::common::{
    enums_text, fallbacks_note, fnptr_struct_def_text, header_text, panicking_fns_text,
    type_aliases_text, write_enums, write_fallbacks_note, write_fnptr_struct_def, write_header,
    write_panicking_fns, write_type_aliases,
};
use crate::generators::{
    fallback_symbols, gen_fallback_symbols, gen_signature, gen_symbol_name, signature,
    symbol_name, Generator,
};
use crate::registry::{AliasView, Cmd, CmdView, Registry, RegistryView};
use crate::text::lemma_flatten_next;
use vstd::prelude::*;
use vstd::string::*;

verus! {

pub struct GlobalGenerator;

impl Generator for GlobalGenerator {
    open spec fn text(&self, registry: RegistryView) -> Seq<char> {
        header_text(false) + metaloadfn_text() + type_aliases_text(registry) + enums_text(
            registry,
        ) + fns_text(registry) + fnptr_struct_def_text(true) + ptrs_text(registry)
            + fn_mods_text(registry) + panicking_fns_text(registry) + load_fn_text(registry)
    }

    fn write(&self, registry: &Registry, dest: &mut String) {
        write_header(dest, false);
        write_metaloadfn(dest);
        write_type_aliases(registry, dest);
        write_enums(registry, dest);
        write_fns(registry, dest);
        write_fnptr_struct_def(dest, true);
        write_ptrs(registry, dest);
        write_fn_mods(registry, dest);
        write_panicking_fns(registry, dest);
        write_load_fn(registry, dest);
        assert(dest@ =~= old(dest)@ + self.text(registry@));
    }
}

pub const METALOADFN: &'static str = "
        #[inline(never)]
        fn metaloadfn(loadfn: &mut dyn FnMut(&'static str) -> *const __gl_imports::raw::c_void,
                      symbol: &'static str,
                      fallbacks: &[&'static str]) -> *const __gl_imports::raw::c_void {
            let mut ptr = loadfn(symbol);
            if ptr.is_null() {
                for &sym in fallbacks {
                    ptr = loadfn(sym);
                    if !ptr.is_null() { break; }
                }
            }
            ptr
        }\n    \n";

/// The function that looks one command up: its symbol first, then its
/// fallbacks in their order, up to the first that is found.
pub open spec fn metaloadfn_text() -> Seq<char> {
    METALOADFN@
}

/// Writes the function that looks a symbol and its fallbacks up.
pub fn write_metaloadfn(dest: &mut String)
    ensures
        final(dest)@ == old(dest)@ + metaloadfn_text(),
{
    dest.append(METALOADFN);
}

pub const FN_OPEN: &'static str = "#[allow(non_snake_case, unused_variables, dead_code)] #[inline]
            pub unsafe fn ";

pub const FN_PARAMS: &'static str = "(";

pub const FN_PARAMS_END: &'static str = ") ";

pub const FN_CAST: &'static str = " { __gl_imports::mem::transmute::<_, extern \"system\" fn(";

pub const FN_SLOT: &'static str = ">(storage::";

pub const FN_CALL: &'static str = ".f)(";

pub const FN_CLOSE: &'static str = ") }
";

/// The function that calls `cmd` through its slot in the table, under the
/// note on its fallbacks. The declaration and the function pointer type that
/// the slot is cast to are written from the one signature of `cmd`.
pub open spec fn fn_text(aliases: Seq<AliasView>, cmd: CmdView) -> Seq<char> {
    let sig = signature(cmd);
    fallbacks_note(aliases, cmd.proto.ident) + FN_OPEN@ + cmd.proto.ident + FN_PARAMS@
        + sig.params + FN_PARAMS_END@ + sig.ret + FN_CAST@ + sig.types + FN_PARAMS_END@ + sig.ret
        + FN_SLOT@ + cmd.proto.ident + FN_CALL@ + sig.idents + FN_CLOSE@
}

/// The functions of the bindings, one for each command in its order.
pub open spec fn fns(registry: RegistryView) -> Seq<Seq<char>> {
    Seq::new(registry.cmds.len(), |i: int| fn_text(registry.aliases, registry.cmds[i]))
}

/// The functions that correspond to the commands.
pub open spec fn fns_text(registry: RegistryView) -> Seq<char> {
    fns(registry).flatten()
}

/// Writes the function that calls `cmd` through its slot.
pub fn write_fn(registry: &Registry, cmd: &Cmd, dest: &mut String)
    ensures
        final(dest)@ == old(dest)@ + fn_text(registry@.aliases, cmd@),
{
    let sig = gen_signature(cmd);
    let name = cmd.proto.ident.as_str();
    write_fallbacks_note(registry, &cmd.proto.ident, dest);
    dest.append(FN_OPEN);
    dest.append(name);
    dest.append(FN_PARAMS);
    dest.append(sig.params.as_str());
    dest.append(FN_PARAMS_END);
    dest.append(sig.ret.as_str());
    dest.append(FN_CAST);
    dest.append(sig.types.as_str());
    dest.append(FN_PARAMS_END);
    dest.append(sig.ret.as_str());
    dest.append(FN_SLOT);
    dest.append(name);
    dest.append(FN_CALL);
    dest.append(sig.idents.as_str());
    dest.append(FN_CLOSE);
    assert(dest@ =~= old(dest)@ + fn_text(registry@.aliases, cmd@));
}

/// Writes the functions that correspond to the commands. Each calls the
/// function pointer that `write_ptrs` stores for it.
pub fn write_fns(registry: &Registry, dest: &mut String)
    ensures
        final(dest)@ == old(dest)@ + fns_text(registry@),
{
    let ghost lines = fns(registry@);
    let ghost start = dest@;
    let mut i: usize = 0;
    assert(dest@ =~= start + lines.take(0).flatten());
    while i < registry.cmds.len()
        invariant
            i <= registry.cmds.len(),
            lines == fns(registry@),
            dest@ == start + lines.take(i as int).flatten(),
        decreases registry.cmds.len() - i,
    {
        write_fn(registry, &registry.cmds[i], dest);
        proof {
            lemma_flatten_next(lines, i as int);
            assert(dest@ =~= start + lines.take(i + 1).flatten());
        }
        i += 1;
    }
    assert(lines.take(lines.len() as int) == lines);
}

pub const PTRS_OPEN: &'static str = "mod storage {
            #![allow(non_snake_case)]
            #![allow(non_upper_case_globals)]
            use super::__gl_imports::raw;
            use super::FnPtr;
";

pub const PTR_OPEN: &'static str = "pub static mut ";

pub const PTR_CLOSE: &'static str = ": FnPtr = FnPtr {
                f: super::missing_fn_panic as *const raw::c_void,
                is_loaded: false
            };
";

pub const PTRS_CLOSE: &'static str = "}
";

/// The slot of the command `name`, which starts out not loaded and leads to
/// the function that stops the program.
pub open spec fn ptr_text(name: Seq<char>) -> Seq<char> {
    PTR_OPEN@ + name + PTR_CLOSE@
}

/// The slots of the table, one for each command in its order.
pub open spec fn ptrs(registry: RegistryView) -> Seq<Seq<char>> {
    Seq::new(registry.cmds.len(), |i: int| ptr_text(registry.cmds[i].proto.ident))
}

/// The module `storage`, which holds the table.
pub open spec fn ptrs_text(registry: RegistryView) -> Seq<char> {
    PTRS_OPEN@ + ptrs(registry).flatten() + PTRS_CLOSE@
}

/// Writes the module `storage`, with a static slot for each command.
pub fn write_ptrs(registry: &Registry, dest: &mut String)
    ensures
        final(dest)@ == old(dest)@ + ptrs_text(registry@),
{
    dest.append(PTRS_OPEN);
    let ghost lines = ptrs(registry@);
    let ghost start = dest@;
    let mut i: usize = 0;
    while i < registry.cmds.len()
        invariant
            i <= registry.cmds.len(),
            lines == ptrs(registry@),
            dest@ == start + lines.take(i as int).flatten(),
        decreases registry.cmds.len() - i,
    {
        dest.append(PTR_OPEN);
        dest.append(registry.cmds[i].proto.ident.as_str());
        dest.append(PTR_CLOSE);
        proof {
            lemma_flatten_next(lines, i as int);
            assert(dest@ =~= start + lines.take(i + 1).flatten());
        }
        i += 1;
    }
    assert(lines.take(lines.len() as int) == lines);
    dest.append(PTRS_CLOSE);
    assert(dest@ =~= old(dest)@ + ptrs_text(registry@));
}

pub const MOD_OPEN: &'static str = "
            #[allow(non_snake_case)]
            pub mod ";

pub const MOD_IS_LOADED: &'static str = " {
                use super::{storage, metaloadfn};
                use super::__gl_imports::raw;
                use super::FnPtr;

                #[inline]
                #[allow(dead_code)]
                pub fn is_loaded() -> bool {
                    unsafe { storage::";

pub const MOD_LOAD_WITH: &'static str = ".is_loaded }
                }

                #[allow(dead_code)]
                pub fn load_with<F>(mut loadfn: F) where F: FnMut(&'static str) -> *const raw::c_void {
                    unsafe {
                        storage::";

pub const MOD_LOAD: &'static str = " = FnPtr::new(metaloadfn(&mut loadfn, \"";

pub const MOD_FALLBACKS: &'static str = "\", &[";

pub const MOD_CLOSE: &'static str = "]))
                    }
                }
            }\n        \n";

/// The module of `cmd`, with `is_loaded`, which reads its slot, and
/// `load_with`, which looks its symbol up, then the symbols of its fallbacks in
/// their order, and stores what was found.
pub open spec fn fn_mod_text(registry: RegistryView, cmd: CmdView) -> Seq<char> {
    MOD_OPEN@ + cmd.proto.ident + MOD_IS_LOADED@ + cmd.proto.ident + MOD_LOAD_WITH@
        + cmd.proto.ident + MOD_LOAD@ + symbol_name(registry.api, cmd.proto.ident)
        + MOD_FALLBACKS@ + fallback_symbols(registry, cmd.proto.ident) + MOD_CLOSE@
}

/// The modules of the commands, in their order.
pub open spec fn fn_mods(registry: RegistryView) -> Seq<Seq<char>> {
    Seq::new(registry.cmds.len(), |i: int| fn_mod_text(registry, registry.cmds[i]))
}

/// One module for each command.
pub open spec fn fn_mods_text(registry: RegistryView) -> Seq<char> {
    fn_mods(registry).flatten()
}

/// Writes the module of `cmd`.
pub fn write_fn_mod(registry: &Registry, cmd: &Cmd, dest: &mut String)
    ensures
        final(dest)@ == old(dest)@ + fn_mod_text(registry@, cmd@),
{
    let fallbacks = gen_fallback_symbols(registry, &cmd.proto.ident);
    let fnname = cmd.proto.ident.as_str();
    let symbol = gen_symbol_name(registry.api, fnname);
    dest.append(MOD_OPEN);
    dest.append(fnname);
    dest.append(MOD_IS_LOADED);
    dest.append(fnname);
    dest.append(MOD_LOAD_WITH);
    dest.append(fnname);
    dest.append(MOD_LOAD);
    dest.append(symbol.as_str());
    dest.append(MOD_FALLBACKS);
    dest.append(fallbacks.as_str());
    dest.append(MOD_CLOSE);
    assert(dest@ =~= old(dest)@ + fn_mod_text(registry@, cmd@));
}

/// Writes one module for each command. Each holds `is_loaded` and
/// `load_with`, which work on the slot that `write_ptrs` stores for it.
pub fn write_fn_mods(registry: &Registry, dest: &mut String)
    ensures
        final(dest)@ == old(dest)@ + fn_mods_text(registry@),
{
    let ghost lines = fn_mods(registry@);
    let ghost start = dest@;
    let mut i: usize = 0;
    assert(dest@ =~= start + lines.take(0).flatten());
    while i < registry.cmds.len()
        invariant
            i <= registry.cmds.len(),
            lines == fn_mods(registry@),
            dest@ == start + lines.take(i as int).flatten(),
        decreases registry.cmds.len() - i,
    {
        write_fn_mod(registry, &registry.cmds[i], dest);
        proof {
            lemma_flatten_next(lines, i as int);
            assert(dest@ =~= start + lines.take(i + 1).flatten());
        }
        i += 1;
    }
    assert(lines.take(lines.len() as int) == lines);
}

pub const LOAD_FN_OPEN: &'static str = "
        /// Load each OpenGL symbol using a custom load function. This allows for the
        /// use of functions like `glfwGetProcAddress` or `SDL_GL_GetProcAddress`.
        /// ~~~ignore
        /// gl::load_with(|s| glfw.get_proc_address(s));
        /// ~~~
        #[allow(dead_code)]
        pub fn load_with<F>(mut loadfn: F) where F: FnMut(&'static str) -> *const __gl_imports::raw::c_void {
            #[inline(never)]
            fn inner(loadfn: &mut dyn FnMut(&'static str) -> *const __gl_imports::raw::c_void) {\n    \n";

pub const LOAD_ONE: &'static str = "::load_with(&mut *loadfn);
";

pub const LOAD_FN_CLOSE: &'static str = "
            }

            inner(&mut loadfn)
        }\n    \n";

/// The statement that loads the command `name`.
pub open spec fn load_one_text(name: Seq<char>) -> Seq<char> {
    name + LOAD_ONE@
}

/// The statements that load the commands, in their order.
pub open spec fn load_all(registry: RegistryView) -> Seq<Seq<char>> {
    Seq::new(registry.cmds.len(), |i: int| load_one_text(registry.cmds[i].proto.ident))
}

/// The function `load_with`, which loads every command in the order of the
/// registry.
pub open spec fn load_fn_text(registry: RegistryView) -> Seq<char> {
    LOAD_FN_OPEN@ + load_all(registry).flatten() + LOAD_FN_CLOSE@
}

/// Writes the function `load_with`, which calls the `load_with` of each of
/// the modules that `write_fn_mods` writes.
pub fn write_load_fn(registry: &Registry, dest: &mut String)
    ensures
        final(dest)@ == old(dest)@ + load_fn_text(registry@),
{
    dest.append(LOAD_FN_OPEN);
    let ghost lines = load_all(registry@);
    let ghost start = dest@;
    let mut i: usize = 0;
    while i < registry.cmds.len()
        invariant
            i <= registry.cmds.len(),
            lines == load_all(registry@),
            dest@ == start + lines.take(i as int).flatten(),
        decreases registry.cmds.len() - i,
    {
        dest.append(registry.cmds[i].proto.ident.as_str());
        dest.append(LOAD_ONE);
        proof {
            lemma_flatten_next(lines, i as int);
            assert(dest@ =~= start + lines.take(i + 1).flatten());
        }
        i += 1;
    }
    assert(lines.take(lines.len() as int) == lines);
    dest.append(LOAD_FN_CLOSE);
    assert(dest@ =~= old(dest)@ + load_fn_text(registry@));
}

} // verus!

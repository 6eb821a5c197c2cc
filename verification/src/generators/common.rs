//! The parts of a binding set that several generators write alike.

use crate::generators::types::{gen_types, types_text, NEWLINE};
use crate::generators::{gen_struct_name, struct_name, COMMA};
use crate::registry::{
    api_name, lookup_fallbacks, AliasView, Api, CmdView, Enum, EnumView, Registry, RegistryView,
};
use crate::text::{join, joined, lemma_flatten_next};
use vstd::prelude::*;
use vstd::string::*;

verus! {

pub const HEADER_OPEN: &'static str = "
        mod __gl_imports {";

pub const HEADER_SEND: &'static str = "
            pub use std::marker::Send;";

pub const HEADER_CLOSE: &'static str = "
            pub use std::mem;
            pub use std::os::raw;
        }
";

/// The import block that every binding set opens with. With `send`, it also
/// brings in the marker by which the bindings structure is declared shareable
/// between threads.
pub open spec fn header_text(send: bool) -> Seq<char> {
    HEADER_OPEN@ + (if send {
        HEADER_SEND@
    } else {
        Seq::empty()
    }) + HEADER_CLOSE@
}

/// Writes the import block.
///
/// `send` is set for the structure generators that load at run time, and clear
/// for the global and the static ones.
pub fn write_header(dest: &mut String, send: bool)
    ensures
        final(dest)@ == old(dest)@ + header_text(send),
{
    dest.append(HEADER_OPEN);
    if send {
        dest.append(HEADER_SEND);
    }
    dest.append(HEADER_CLOSE);
    assert(dest@ =~= old(dest)@ + header_text(send));
}

pub const TYPES_OPEN: &'static str = "
        pub mod types {
            #![allow(non_camel_case_types, non_snake_case, dead_code, missing_copy_implementations)]\n    \n";

pub const TYPES_CLOSE: &'static str = "}
";

/// The module `types`, which holds the alias table of the registry's API.
pub open spec fn type_aliases_text(registry: RegistryView) -> Seq<char> {
    TYPES_OPEN@ + types_text(registry.api) + TYPES_CLOSE@
}

/// Writes the module `types`.
pub fn write_type_aliases(registry: &Registry, dest: &mut String)
    ensures
        final(dest)@ == old(dest)@ + type_aliases_text(registry@),
{
    dest.append(TYPES_OPEN);
    gen_types(registry.api, dest);
    dest.append(TYPES_CLOSE);
    assert(dest@ =~= old(dest)@ + type_aliases_text(registry@));
}

pub const ENUM_OPEN: &'static str = "#[allow(dead_code, non_upper_case_globals)] pub const ";

pub const ENUM_TYPED: &'static str = ": ";

pub const ENUM_ASSIGN: &'static str = " = ";

pub const ENUM_CLOSE: &'static str = ";
";

/// The type of a constant for which the source names none.
pub const ENUM_DEFAULT_TYPE: &'static str = "GLenum";

/// The type a constant is declared with.
pub open spec fn enum_type(enm: EnumView) -> Seq<char> {
    match enm.ty {
        Some(ty) => ty,
        None => ENUM_DEFAULT_TYPE@,
    }
}

/// The definition of one constant, on a line of its own.
pub open spec fn enum_item_text(enm: EnumView) -> Seq<char> {
    ENUM_OPEN@ + enm.ident + ENUM_TYPED@ + enum_type(enm) + ENUM_ASSIGN@ + enm.value
        + ENUM_CLOSE@
}

/// Writes the definition of one constant.
pub fn gen_enum_item(enm: &Enum, dest: &mut String)
    ensures
        final(dest)@ == old(dest)@ + enum_item_text(enm@),
{
    dest.append(ENUM_OPEN);
    dest.append(enm.ident.as_str());
    dest.append(ENUM_TYPED);
    match &enm.ty {
        Some(ty) => dest.append(ty.as_str()),
        None => dest.append(ENUM_DEFAULT_TYPE),
    }
    dest.append(ENUM_ASSIGN);
    dest.append(enm.value.as_str());
    dest.append(ENUM_CLOSE);
    assert(dest@ =~= old(dest)@ + enum_item_text(enm@));
}

pub const ENUMS_OPEN: &'static str = "
    pub use consts::*;
    mod consts {
        #![allow(dead_code)]
        use super::types::*;\n        \n";

pub const ENUMS_CLOSE: &'static str = "    }
";

/// The definitions of the registry's constants, in their order.
pub open spec fn enum_items(registry: RegistryView) -> Seq<Seq<char>> {
    Seq::new(registry.enums.len(), |i: int| enum_item_text(registry.enums[i]))
}

/// The module `consts`: one definition for each constant of the registry,
/// with the alias table in scope.
pub open spec fn enums_text(registry: RegistryView) -> Seq<char> {
    ENUMS_OPEN@ + enum_items(registry).flatten() + ENUMS_CLOSE@
}

/// Writes the constants of the registry.
pub fn write_enums(registry: &Registry, dest: &mut String)
    ensures
        final(dest)@ == old(dest)@ + enums_text(registry@),
{
    dest.append(ENUMS_OPEN);
    let ghost items = enum_items(registry@);
    let ghost start = dest@;
    let mut i: usize = 0;
    while i < registry.enums.len()
        invariant
            i <= registry.enums.len(),
            items == enum_items(registry@),
            dest@ == start + items.take(i as int).flatten(),
        decreases registry.enums.len() - i,
    {
        gen_enum_item(&registry.enums[i], dest);
        proof {
            lemma_flatten_next(items, i as int);
            assert(dest@ =~= start + items.take(i + 1).flatten());
        }
        i += 1;
    }
    assert(items.take(items.len() as int) == items);
    dest.append(ENUMS_CLOSE);
    assert(dest@ =~= old(dest)@ + enums_text(registry@));
}

pub const FNPTR_ALLOW: &'static str = "
        #[allow(";

pub const FNPTR_DEAD_CODE: &'static str = "dead_code, ";

pub const FNPTR_STRUCT_ATTRS: &'static str = "missing_copy_implementations)]";

pub const FNPTR_CLONE: &'static str = "
        #[derive(Clone)]";

pub const FNPTR_STRUCT: &'static str = "
        pub struct FnPtr {
            /// The function pointer that will be used when calling the function.
            f: *const __gl_imports::raw::c_void,
            /// True if the pointer points to a real function, false if points to a `panic!` fn.
            is_loaded: bool,
        }

        impl FnPtr {
            /// Creates a `FnPtr` from a load attempt.
            ";

pub const FNPTR_PUB: &'static str = "pub ";

pub const FNPTR_NEW: &'static str = "fn new(ptr: *const __gl_imports::raw::c_void) -> FnPtr {
                if ptr.is_null() {
                    FnPtr {
                        f: missing_fn_panic as *const __gl_imports::raw::c_void,
                        is_loaded: false
                    }
                } else {
                    FnPtr { f: ptr, is_loaded: true }
                }
            }";

pub const FNPTR_IS_LOADED: &'static str = "

            /// Returns `true` if the function has been successfully loaded.
            ///
            /// If it returns `false`, calling the corresponding function will fail.
            #[inline]
            #[allow(dead_code)]
            pub fn is_loaded(&self) -> bool {
                self.is_loaded
            }";

pub const FNPTR_CLOSE: &'static str = "
        }\n        \n";

/// The record that stores one binding: a function pointer and whether it
/// leads to the real function. The global form is for a single table of the
/// whole process: it cannot be cloned and does not say whether it is loaded,
/// and its constructor is public. The other form can be cloned, says whether it
/// is loaded, and keeps its constructor to itself.
pub open spec fn fnptr_struct_def_text(global: bool) -> Seq<char> {
    if global {
        FNPTR_ALLOW@ + FNPTR_STRUCT_ATTRS@ + FNPTR_STRUCT@ + FNPTR_PUB@ + FNPTR_NEW@
            + FNPTR_CLOSE@
    } else {
        FNPTR_ALLOW@ + FNPTR_DEAD_CODE@ + FNPTR_STRUCT_ATTRS@ + FNPTR_CLONE@ + FNPTR_STRUCT@
            + FNPTR_NEW@ + FNPTR_IS_LOADED@ + FNPTR_CLOSE@
    }
}

/// Writes the definition of the record that stores one binding.
///
/// `global` is set for the global generator and clear for the structure
/// generators.
pub fn write_fnptr_struct_def(dest: &mut String, global: bool)
    ensures
        final(dest)@ == old(dest)@ + fnptr_struct_def_text(global),
{
    dest.append(FNPTR_ALLOW);
    if !global {
        dest.append(FNPTR_DEAD_CODE);
    }
    dest.append(FNPTR_STRUCT_ATTRS);
    if !global {
        dest.append(FNPTR_CLONE);
    }
    dest.append(FNPTR_STRUCT);
    if global {
        dest.append(FNPTR_PUB);
    }
    dest.append(FNPTR_NEW);
    if !global {
        dest.append(FNPTR_IS_LOADED);
    }
    dest.append(FNPTR_CLOSE);
    assert(dest@ =~= old(dest)@ + fnptr_struct_def_text(global));
}

pub const PANICKING_OPEN: &'static str = "
        #[inline(never)]
        fn missing_fn_panic() -> ! {
            panic!(\"";

/// What the message says after the name of the API.
pub const NOT_LOADED: &'static str = " function was not loaded";

pub const PANICKING_CLOSE: &'static str = "\")
        }
";

/// The message with which a call of a function that was not loaded stops the
/// program.
pub open spec fn missing_fn_message(api: Api) -> Seq<char> {
    api_name(api) + NOT_LOADED@
}

/// The function that every binding leads to until the real one is loaded. It
/// never returns: it stops the program with a message that names the API.
pub open spec fn panicking_fns_text(registry: RegistryView) -> Seq<char> {
    PANICKING_OPEN@ + missing_fn_message(registry.api) + PANICKING_CLOSE@
}

/// Writes the function that is called in place of one that was not loaded.
pub fn write_panicking_fns(registry: &Registry, dest: &mut String)
    ensures
        final(dest)@ == old(dest)@ + panicking_fns_text(registry@),
{
    dest.append(PANICKING_OPEN);
    dest.append(registry.api.name());
    dest.append(NOT_LOADED);
    dest.append(PANICKING_CLOSE);
    assert(dest@ =~= old(dest)@ + panicking_fns_text(registry@));
}

pub const STUB_STRUCT_OPEN: &'static str = "
            #[allow(non_camel_case_types, non_snake_case, dead_code)]
            #[derive(Copy, Clone)]
            pub struct ";

pub const STUB_STRUCT_CLOSE: &'static str = ";
";

pub const STRUCT_OPEN: &'static str = "
        #[allow(non_camel_case_types, non_snake_case, dead_code)]
        #[derive(Clone)]
        pub struct ";

pub const STRUCT_BODY: &'static str = " {
";

pub const FALLBACKS_NOTE: &'static str = "/// Fallbacks: ";

pub const FIELD_OPEN: &'static str = "pub ";

pub const FIELD_CLOSE: &'static str = ": FnPtr,
";

pub const STRUCT_CLOSE: &'static str = "_priv: ()
}
";

/// The line that names the fallbacks of the command `name`, where any are
/// registered for it.
pub open spec fn fallbacks_note(aliases: Seq<AliasView>, name: Seq<char>) -> Seq<char> {
    match lookup_fallbacks(aliases, name) {
        Some(names) => FALLBACKS_NOTE@ + joined(names, COMMA@) + NEWLINE@,
        None => Seq::empty(),
    }
}

/// The field that stores the binding of `cmd`, under the note on its fallbacks.
pub open spec fn struct_field_text(aliases: Seq<AliasView>, cmd: CmdView) -> Seq<char> {
    fallbacks_note(aliases, cmd.proto.ident) + FIELD_OPEN@ + cmd.proto.ident + FIELD_CLOSE@
}

/// The fields of the bindings structure, one for each command in its order.
pub open spec fn struct_fields(registry: RegistryView) -> Seq<Seq<char>> {
    Seq::new(registry.cmds.len(), |i: int| struct_field_text(registry.aliases, registry.cmds[i]))
}

/// The bindings structure, named after the API. As a stub it has no fields.
/// Otherwise it has one field for each command and a private last field, so that
/// no code outside can build it from its fields.
pub open spec fn struct_text(registry: RegistryView, stat: bool) -> Seq<char> {
    if stat {
        STUB_STRUCT_OPEN@ + struct_name(registry.api) + STUB_STRUCT_CLOSE@
    } else {
        STRUCT_OPEN@ + struct_name(registry.api) + STRUCT_BODY@ + struct_fields(
            registry,
        ).flatten() + STRUCT_CLOSE@
    }
}

/// Writes the note on the fallbacks of the command `name`, if it has any.
pub fn write_fallbacks_note(registry: &Registry, name: &String, dest: &mut String)
    ensures
        final(dest)@ == old(dest)@ + fallbacks_note(registry@.aliases, name@),
{
    match registry.fallbacks(name) {
        Some(names) => {
            dest.append(FALLBACKS_NOTE);
            let list = join(names, COMMA);
            dest.append(list.as_str());
            dest.append(NEWLINE);
        },
        None => {},
    }
    assert(dest@ =~= old(dest)@ + fallbacks_note(registry@.aliases, name@));
}

/// Writes the bindings structure.
///
/// `stat` is set for the static structure generator, which stores nothing, and
/// clear for the structure generators that load at run time.
pub fn write_struct(registry: &Registry, dest: &mut String, stat: bool)
    ensures
        final(dest)@ == old(dest)@ + struct_text(registry@, stat),
{
    if stat {
        dest.append(STUB_STRUCT_OPEN);
        dest.append(gen_struct_name(registry.api));
        dest.append(STUB_STRUCT_CLOSE);
        assert(dest@ =~= old(dest)@ + struct_text(registry@, stat));
    } else {
        dest.append(STRUCT_OPEN);
        dest.append(gen_struct_name(registry.api));
        dest.append(STRUCT_BODY);
        let ghost fields = struct_fields(registry@);
        let ghost start = dest@;
        let mut i: usize = 0;
        while i < registry.cmds.len()
            invariant
                i <= registry.cmds.len(),
                fields == struct_fields(registry@),
                dest@ == start + fields.take(i as int).flatten(),
            decreases registry.cmds.len() - i,
        {
            let cmd = &registry.cmds[i];
            write_fallbacks_note(registry, &cmd.proto.ident, dest);
            dest.append(FIELD_OPEN);
            dest.append(cmd.proto.ident.as_str());
            dest.append(FIELD_CLOSE);
            proof {
                lemma_flatten_next(fields, i as int);
                assert(dest@ =~= start + fields.take(i + 1).flatten());
            }
            i += 1;
        }
        assert(fields.take(fields.len() as int) == fields);
        dest.append(STRUCT_CLOSE);
        assert(dest@ =~= old(dest)@ + struct_text(registry@, stat));
    }
}

} // verus!

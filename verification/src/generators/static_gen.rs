//! Bindings to symbols that the linker resolves: the commands are declared as
//! foreign functions, and nothing is looked up at run time.

use crate::generators::common::{
    enums_text, header_text, type_aliases_text, write_enums, write_header, write_type_aliases,
};
use crate::generators::{gen_signature, gen_symbol_name, signature, symbol_name, Generator};
use crate::registry::{Api, Cmd, CmdView, Registry, RegistryView};
use crate::text::lemma_flatten_next;
use vstd::prelude::*;
use vstd::string::*;

verus! {

pub struct StaticGenerator;

impl Generator for StaticGenerator {
    open spec fn text(&self, registry: RegistryView) -> Seq<char> {
        header_text(false) + type_aliases_text(registry) + enums_text(registry) + fns_text(
            registry,
        )
    }

    fn write(&self, registry: &Registry, dest: &mut String) {
        write_header(dest, false);
        write_type_aliases(registry, dest);
        write_enums(registry, dest);
        write_fns(registry, dest);
        assert(dest@ =~= old(dest)@ + self.text(registry@));
    }
}

pub const FNS_OPEN: &'static str = "
        #[allow(non_snake_case, unused_variables, dead_code)]
        extern \"system\" {
";

pub const FNS_CLOSE: &'static str = "}
";

pub const DECL_OPEN: &'static str = "#[link_name=\"";

pub const DECL_NAME: &'static str = "\"]
            pub fn ";

pub const DECL_PARAMS: &'static str = "(";

pub const DECL_PARAMS_END: &'static str = ")";

pub const DECL_CLOSE: &'static str = ";
";

/// The declaration of `cmd` as a foreign function, linked under its symbol.
pub open spec fn decl_text(api: Api, cmd: CmdView) -> Seq<char> {
    let sig = signature(cmd);
    DECL_OPEN@ + symbol_name(api, cmd.proto.ident) + DECL_NAME@ + cmd.proto.ident + DECL_PARAMS@
        + sig.params + DECL_PARAMS_END@ + sig.ret + DECL_CLOSE@
}

/// The declarations of the registry's commands, in their order.
pub open spec fn decls(registry: RegistryView) -> Seq<Seq<char>> {
    Seq::new(registry.cmds.len(), |i: int| decl_text(registry.api, registry.cmds[i]))
}

/// The block of foreign functions, one for each command.
pub open spec fn fns_text(registry: RegistryView) -> Seq<char> {
    FNS_OPEN@ + decls(registry).flatten() + FNS_CLOSE@
}

/// Writes the declaration of `cmd` as a foreign function.
pub fn write_decl(api: Api, cmd: &Cmd, dest: &mut String)
    ensures
        final(dest)@ == old(dest)@ + decl_text(api, cmd@),
{
    let sig = gen_signature(cmd);
    let symbol = gen_symbol_name(api, cmd.proto.ident.as_str());
    dest.append(DECL_OPEN);
    dest.append(symbol.as_str());
    dest.append(DECL_NAME);
    dest.append(cmd.proto.ident.as_str());
    dest.append(DECL_PARAMS);
    dest.append(sig.params.as_str());
    dest.append(DECL_PARAMS_END);
    dest.append(sig.ret.as_str());
    dest.append(DECL_CLOSE);
    assert(dest@ =~= old(dest)@ + decl_text(api, cmd@));
}

/// Writes the functions of the bindings: foreign functions, which have no
/// body.
pub fn write_fns(registry: &Registry, dest: &mut String)
    ensures
        final(dest)@ == old(dest)@ + fns_text(registry@),
{
    dest.append(FNS_OPEN);
    let ghost lines = decls(registry@);
    let ghost start = dest@;
    let mut i: usize = 0;
    while i < registry.cmds.len()
        invariant
            i <= registry.cmds.len(),
            lines == decls(registry@),
            dest@ == start + lines.take(i as int).flatten(),
        decreases registry.cmds.len() - i,
    {
        write_decl(registry.api, &registry.cmds[i], dest);
        proof {
            lemma_flatten_next(lines, i as int);
            assert(dest@ =~= start + lines.take(i + 1).flatten());
        }
        i += 1;
    }
    assert(lines.take(lines.len() as int) == lines);
    dest.append(FNS_CLOSE);
    assert(dest@ =~= old(dest)@ + fns_text(registry@));
}

} // verus!

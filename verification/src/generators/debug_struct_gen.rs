//! Bindings held in a structure, with every call traced: each method prints
//! the call and its arguments before it makes the call, and, where the registry
//! has the command that reports errors, asks it afterwards and prints what it
//! reports. The tracing observes only: the call is made all the same, and what
//! it returns is returned.

use crate::generators::common::{
    enums_text, fnptr_struct_def_text, header_text, panicking_fns_text, struct_text,
    type_aliases_text, write_enums, write_fnptr_struct_def, write_header, write_panicking_fns,
    write_struct, write_type_aliases,
};
use crate::generators::struct_gen::{
    impl_close_text, load_with_text, write_impl_close, write_load_with,
};
use crate::generators::{gen_signature, signature, Generator, Signature, COMMA, NO_VALUE};
use crate::registry::{has_command, BindingView, Cmd, CmdView, Registry, RegistryView};
use crate::text::{contains, join, joined, lemma_flatten_next, occurs_in};
use vstd::prelude::*;
use vstd::string::*;

verus! {

pub struct DebugStructGenerator;

impl Generator for DebugStructGenerator {
    open spec fn text(&self, registry: RegistryView) -> Seq<char> {
        header_text(true) + type_aliases_text(registry) + enums_text(registry)
            + fnptr_struct_def_text(false) + panicking_fns_text(registry) + struct_text(
            registry,
            false,
        ) + impl_text(registry)
    }

    fn write(&self, registry: &Registry, dest: &mut String) {
        write_header(dest, true);
        write_type_aliases(registry, dest);
        write_enums(registry, dest);
        write_fnptr_struct_def(dest, false);
        write_panicking_fns(registry, dest);
        write_struct(registry, dest, false);
        write_impl(registry, dest);
        assert(dest@ =~= old(dest)@ + self.text(registry@));
    }
}

/// The command that reports the last error.
pub const GET_ERROR: &'static str = "GetError";

/// A type descriptor that holds this is a callback's, which cannot be printed.
pub const CALLBACK_TYPE: &'static str = "GLDEBUGPROC";

/// What the trace prints in place of a callback.
pub const CALLBACK_ARG: &'static str = ", \"<callback>\"";

/// Where the trace prints one argument.
pub const PLACEHOLDER: &'static str = "{:?}";

pub const TRACE_OPEN: &'static str = "println!(\"[OpenGL] ";

pub const TRACE_PARAMS: &'static str = "(";

pub const TRACE_FORMAT_END: &'static str = ")\" ";

pub const TRACE_CLOSE: &'static str = ");";

/// The places for the arguments of `cmd` in the format of its trace line.
pub open spec fn placeholders(cmd: CmdView) -> Seq<char> {
    joined(Seq::new(cmd.params.len(), |i: int| PLACEHOLDER@), COMMA@)
}

/// One argument as it is handed to the trace: a comma and the parameter's
/// name, or a fixed text in place of a callback.
pub open spec fn trace_arg(binding: BindingView) -> Seq<char> {
    if occurs_in(CALLBACK_TYPE@, binding.ty) {
        CALLBACK_ARG@
    } else {
        COMMA@ + binding.ident
    }
}

/// The arguments of `cmd` as they are handed to the trace, in their order.
pub open spec fn trace_args(cmd: CmdView) -> Seq<Seq<char>> {
    Seq::new(cmd.params.len(), |i: int| trace_arg(cmd.params[i]))
}

/// The statement that prints the call of `cmd` with its arguments.
pub open spec fn trace_text(cmd: CmdView) -> Seq<char> {
    TRACE_OPEN@ + cmd.proto.ident + TRACE_PARAMS@ + placeholders(cmd) + TRACE_FORMAT_END@
        + trace_args(cmd).flatten() + TRACE_CLOSE@
}

/// Writes the statement that prints the call of `cmd`.
pub fn write_trace(cmd: &Cmd, dest: &mut String)
    ensures
        final(dest)@ == old(dest)@ + trace_text(cmd@),
{
    dest.append(TRACE_OPEN);
    dest.append(cmd.proto.ident.as_str());
    dest.append(TRACE_PARAMS);
    let mut places: Vec<String> = Vec::new();
    let mut i: usize = 0;
    while i < cmd.params.len()
        invariant
            i <= cmd.params.len(),
            places.len() == i,
            forall|k: int| 0 <= k < i ==> #[trigger] places@[k]@ == PLACEHOLDER@,
        decreases cmd.params.len() - i,
    {
        places.push(String::from_str(PLACEHOLDER));
        i += 1;
    }
    assert(places.deep_view() =~= Seq::new(cmd@.params.len(), |i: int| PLACEHOLDER@));
    let list = join(&places, COMMA);
    dest.append(list.as_str());
    dest.append(TRACE_FORMAT_END);
    let ghost args = trace_args(cmd@);
    let ghost start = dest@;
    let mut j: usize = 0;
    while j < cmd.params.len()
        invariant
            j <= cmd.params.len(),
            args == trace_args(cmd@),
            dest@ == start + args.take(j as int).flatten(),
        decreases cmd.params.len() - j,
    {
        let binding = &cmd.params[j];
        if contains(binding.ty.as_str(), CALLBACK_TYPE) {
            dest.append(CALLBACK_ARG);
        } else {
            dest.append(COMMA);
            dest.append(binding.ident.as_str());
        }
        proof {
            lemma_flatten_next(args, j as int);
            assert(dest@ =~= start + args.take(j + 1).flatten());
        }
        j += 1;
    }
    assert(args.take(args.len() as int) == args);
    dest.append(TRACE_CLOSE);
    assert(dest@ =~= old(dest)@ + trace_text(cmd@));
}

pub const ERROR_CHECK: &'static str = ";
                match __gl_imports::mem::transmute::<_, extern \"system\" fn() -> u32>(self.GetError.f)() {
                    0 => (),
                    r => println!(\"[OpenGL] ^ GL error triggered: {}\", r)
                }";

pub const KEEP_RESULT: &'static str = "let r = ";

pub const GIVE_RESULT: &'static str = "
                r";

/// Whether the call of `cmd` is followed by a question for the last error:
/// where the registry has the command that reports it, after every other
/// command.
pub open spec fn checks_error(registry: RegistryView, cmd: CmdView) -> bool {
    cmd.proto.ident != GET_ERROR@ && has_command(registry.cmds, GET_ERROR@)
}

/// Whether the method of `cmd` keeps what the call returns in a variable, to
/// return it after the question for the last error.
pub open spec fn keeps_result(registry: RegistryView, cmd: CmdView) -> bool {
    cmd.proto.ty != NO_VALUE@ && checks_error(registry, cmd)
}

pub const METHOD_OPEN: &'static str = "
            #[allow(non_snake_case, unused_variables, dead_code)]
            #[inline] pub unsafe fn ";

pub const METHOD_PARAMS: &'static str = "(&self, ";

pub const METHOD_PARAMS_END: &'static str = ") ";

pub const METHOD_BODY: &'static str = " {
                ";

pub const METHOD_STATEMENT: &'static str = "
                ";

pub const METHOD_CAST: &'static str = "__gl_imports::mem::transmute::<_, extern \"system\" fn(";

pub const METHOD_SLOT: &'static str = ">(self.";

pub const METHOD_CALL: &'static str = ".f)(";

pub const METHOD_CALL_END: &'static str = ")";

pub const METHOD_CLOSE: &'static str = "
            }
";

/// The declaration of the method of `cmd`, up to the first statement of its
/// body.
pub open spec fn method_head_text(cmd: CmdView) -> Seq<char> {
    let sig = signature(cmd);
    METHOD_OPEN@ + cmd.proto.ident + METHOD_PARAMS@ + sig.params + METHOD_PARAMS_END@ + sig.ret
        + METHOD_BODY@
}

/// The call of `cmd` through its slot, cast to the function pointer type of
/// its signature.
pub open spec fn method_call_text(cmd: CmdView) -> Seq<char> {
    let sig = signature(cmd);
    METHOD_CAST@ + sig.types + METHOD_PARAMS_END@ + sig.ret + METHOD_SLOT@ + cmd.proto.ident
        + METHOD_CALL@ + sig.idents + METHOD_CALL_END@
}

/// The method that traces and calls `cmd`. The declaration and the function
/// pointer type that the slot is cast to are written from the one signature of
/// `cmd`.
pub open spec fn method_text(registry: RegistryView, cmd: CmdView) -> Seq<char> {
    method_head_text(cmd) + trace_text(cmd) + METHOD_STATEMENT@ + (if keeps_result(
        registry,
        cmd,
    ) {
        KEEP_RESULT@
    } else {
        Seq::empty()
    }) + method_call_text(cmd) + (if checks_error(registry, cmd) {
        ERROR_CHECK@
    } else {
        Seq::empty()
    }) + (if keeps_result(registry, cmd) {
        GIVE_RESULT@
    } else {
        Seq::empty()
    }) + METHOD_CLOSE@
}

/// The method of a command that returns no value keeps no result and gives
/// none back: after the trace it makes the call, asks for the last error where
/// that is done, and ends.
pub proof fn lemma_no_value_keeps_no_result(registry: RegistryView, cmd: CmdView)
    requires
        cmd.proto.ty == NO_VALUE@,
    ensures
        !keeps_result(registry, cmd),
        method_text(registry, cmd) == method_head_text(cmd) + trace_text(cmd) + METHOD_STATEMENT@
            + method_call_text(cmd) + (if checks_error(registry, cmd) {
            ERROR_CHECK@
        } else {
            Seq::empty()
        }) + METHOD_CLOSE@,
{
    let empty = Seq::<char>::empty();
    let head = method_head_text(cmd) + trace_text(cmd) + METHOD_STATEMENT@;
    assert(head + empty == head);
    let call = head + method_call_text(cmd) + (if checks_error(registry, cmd) {
        ERROR_CHECK@
    } else {
        Seq::empty()
    });
    assert(call + empty == call);
}

/// The methods of the structure, one for each command in its order.
pub open spec fn methods(registry: RegistryView) -> Seq<Seq<char>> {
    Seq::new(registry.cmds.len(), |i: int| method_text(registry, registry.cmds[i]))
}

/// The `impl` block of the bindings structure: `load_with`, then one tracing
/// method for each command.
pub open spec fn impl_text(registry: RegistryView) -> Seq<char> {
    load_with_text(registry) + methods(registry).flatten() + impl_close_text(registry)
}

/// Writes the declaration of the method of `cmd`.
pub fn write_method_head(cmd: &Cmd, sig: &Signature, dest: &mut String)
    requires
        sig@ == signature(cmd@),
    ensures
        final(dest)@ == old(dest)@ + method_head_text(cmd@),
{
    dest.append(METHOD_OPEN);
    dest.append(cmd.proto.ident.as_str());
    dest.append(METHOD_PARAMS);
    dest.append(sig.params.as_str());
    dest.append(METHOD_PARAMS_END);
    dest.append(sig.ret.as_str());
    dest.append(METHOD_BODY);
    assert(dest@ =~= old(dest)@ + method_head_text(cmd@));
}

/// Writes the call of `cmd` through its slot.
pub fn write_method_call(cmd: &Cmd, sig: &Signature, dest: &mut String)
    requires
        sig@ == signature(cmd@),
    ensures
        final(dest)@ == old(dest)@ + method_call_text(cmd@),
{
    dest.append(METHOD_CAST);
    dest.append(sig.types.as_str());
    dest.append(METHOD_PARAMS_END);
    dest.append(sig.ret.as_str());
    dest.append(METHOD_SLOT);
    dest.append(cmd.proto.ident.as_str());
    dest.append(METHOD_CALL);
    dest.append(sig.idents.as_str());
    dest.append(METHOD_CALL_END);
    assert(dest@ =~= old(dest)@ + method_call_text(cmd@));
}

/// Writes the method that traces and calls `cmd`. `has_get_error` says
/// whether the registry has the command that reports the last error.
pub fn write_method(registry: &Registry, cmd: &Cmd, has_get_error: bool, dest: &mut String)
    requires
        has_get_error == has_command(registry@.cmds, GET_ERROR@),
    ensures
        final(dest)@ == old(dest)@ + method_text(registry@, cmd@),
{
    let sig = gen_signature(cmd);
    let get_error = String::from_str(GET_ERROR);
    let no_value = String::from_str(NO_VALUE);
    let checks_error = !(cmd.proto.ident == get_error) && has_get_error;
    let keeps_result = !(cmd.proto.ty == no_value) && checks_error;
    write_method_head(cmd, &sig, dest);
    write_trace(cmd, dest);
    dest.append(METHOD_STATEMENT);
    if keeps_result {
        dest.append(KEEP_RESULT);
    }
    write_method_call(cmd, &sig, dest);
    if checks_error {
        dest.append(ERROR_CHECK);
    }
    if keeps_result {
        dest.append(GIVE_RESULT);
    }
    dest.append(METHOD_CLOSE);
    assert(dest@ =~= old(dest)@ + method_text(registry@, cmd@));
}

/// Writes the `impl` block of the structure that `write_struct` declares.
pub fn write_impl(registry: &Registry, dest: &mut String)
    ensures
        final(dest)@ == old(dest)@ + impl_text(registry@),
{
    write_load_with(registry, dest);
    let get_error = String::from_str(GET_ERROR);
    let has_get_error = registry.has_cmd(&get_error);
    let ghost lines = methods(registry@);
    let ghost start = dest@;
    let mut i: usize = 0;
    while i < registry.cmds.len()
        invariant
            i <= registry.cmds.len(),
            has_get_error == has_command(registry@.cmds, GET_ERROR@),
            lines == methods(registry@),
            dest@ == start + lines.take(i as int).flatten(),
        decreases registry.cmds.len() - i,
    {
        write_method(registry, &registry.cmds[i], has_get_error, dest);
        proof {
            lemma_flatten_next(lines, i as int);
            assert(dest@ =~= start + lines.take(i + 1).flatten());
        }
        i += 1;
    }
    assert(lines.take(lines.len() as int) == lines);
    write_impl_close(registry, dest);
    assert(dest@ =~= old(dest)@ + impl_text(registry@));
}

} // verus!

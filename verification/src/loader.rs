//! What the loading code of a binding set does when it runs: how the symbol of
//! a command and its fallbacks are looked up, and what the slot of the command
//! holds afterwards.
//!
//! The function that looks a name up is the caller's. It returns an address,
//! or [`NULL`] where it finds nothing.

use crate::generators::common::{missing_fn_message, NOT_LOADED};
use crate::generators::{gen_symbol_name, gen_symbols, symbol_name, symbols};
use crate::registry::{fallbacks_of, Api, CmdView, Registry, RegistryView};
use vstd::prelude::*;
use vstd::string::*;

verus! {

/// The address that stands for "not found".
pub const NULL: usize = 0;

/// Where the function pointer of a slot leads.
#[derive(Clone, Copy, Debug, PartialEq, Eq, Structural)]
pub enum Target {
    /// To the function that stops the program.
    MissingFnPanic,
    /// To the function that was found at this address.
    Address(usize),
}

/// The store of one binding.
#[derive(Clone, Copy, Debug, PartialEq, Eq, Structural)]
pub struct FnPtr {
    /// The function that a call goes to.
    pub f: Target,
    /// Whether `f` leads to the real function.
    pub is_loaded: bool,
}

/// The slot that a load attempt with the result `ptr` leaves.
pub open spec fn slot_of(ptr: usize) -> FnPtr {
    if ptr == NULL {
        FnPtr { f: Target::MissingFnPanic, is_loaded: false }
    } else {
        FnPtr { f: Target::Address(ptr), is_loaded: true }
    }
}

impl FnPtr {
    /// Creates a slot from a load attempt.
    pub fn new(ptr: usize) -> (r: FnPtr)
        ensures
            r == slot_of(ptr),
    {
        if ptr == NULL {
            FnPtr { f: Target::MissingFnPanic, is_loaded: false }
        } else {
            FnPtr { f: Target::Address(ptr), is_loaded: true }
        }
    }

    /// Whether the function has been loaded. If it has not, a call of it
    /// stops the program.
    pub fn is_loaded(&self) -> (r: bool)
        ensures
            r == self.is_loaded,
    {
        self.is_loaded
    }
}

/// The names that are looked up for a command, in the order in which they
/// are tried: its own symbol, then its fallbacks.
pub open spec fn probe_order(symbol: Seq<char>, fallbacks: Seq<Seq<char>>) -> Seq<Seq<char>> {
    seq![symbol] + fallbacks
}

/// `loadfn`, asked for `name`, may answer `ptr`.
pub open spec fn answers<F: Fn(&str) -> usize>(loadfn: &F, name: Seq<char>, ptr: usize) -> bool {
    exists|s: &str| s@ == name && #[trigger] call_ensures(loadfn, (s,), ptr)
}

/// `trace` holds the answers of one pass over `names`: the names are asked for
/// from the first on, one after another; every answer but the last is null; and
/// the pass ends at the first answer that is not null, or with the last name.
pub open spec fn is_probe_trace<F: Fn(&str) -> usize>(
    loadfn: &F,
    names: Seq<Seq<char>>,
    trace: Seq<usize>,
) -> bool {
    &&& 1 <= trace.len() <= names.len()
    &&& forall|i: int| 0 <= i < trace.len() ==> answers(loadfn, names[i], #[trigger] trace[i])
    &&& forall|i: int| 0 <= i < trace.len() - 1 ==> #[trigger] trace[i] == NULL
    &&& (trace.last() != NULL || trace.len() == names.len())
}

/// A pass over `names` may end with `ptr`.
pub open spec fn resolves<F: Fn(&str) -> usize>(
    loadfn: &F,
    names: Seq<Seq<char>>,
    ptr: usize,
) -> bool {
    exists|trace: Seq<usize>| #[trigger] is_probe_trace(loadfn, names, trace) && ptr == trace.last()
}

/// Looks `symbol` up, then each of `fallbacks` in their order, and stops at
/// the first that is found. Returns its address, or null where none is found.
pub fn metaloadfn<F: Fn(&str) -> usize>(loadfn: &F, symbol: &str, fallbacks: &Vec<String>) -> (ptr:
    usize)
    requires
        forall|s: &str| call_requires(loadfn, (s,)),
    ensures
        resolves(loadfn, probe_order(symbol@, fallbacks.deep_view()), ptr),
{
    let ghost names = probe_order(symbol@, fallbacks.deep_view());
    let mut ptr = loadfn(symbol);
    let ghost mut trace = seq![ptr];
    let mut i: usize = 0;
    while i < fallbacks.len() && ptr == NULL
        invariant
            i <= fallbacks.len(),
            names == probe_order(symbol@, fallbacks.deep_view()),
            forall|s: &str| call_requires(loadfn, (s,)),
            trace.len() == i + 1,
            ptr == trace.last(),
            forall|k: int| 0 <= k < trace.len() ==> answers(loadfn, names[k], #[trigger] trace[k]),
            forall|k: int| 0 <= k < trace.len() - 1 ==> #[trigger] trace[k] == NULL,
        decreases fallbacks.len() - i,
    {
        let sym = fallbacks[i].as_str();
        ptr = loadfn(sym);
        proof {
            assert(names[i + 1] == fallbacks@[i as int]@);
            assert(answers(loadfn, names[i + 1], ptr));
            trace = trace.push(ptr);
        }
        i += 1;
    }
    assert(is_probe_trace(loadfn, names, trace));
    ptr
}

/// The names that are looked up for `cmd`: its symbol, then the symbols of
/// the fallbacks registered for it, in their order. They are the names that the
/// emitted loading code passes for it.
pub open spec fn command_probes(registry: RegistryView, cmd: CmdView) -> Seq<Seq<char>> {
    probe_order(
        symbol_name(registry.api, cmd.proto.ident),
        symbols(registry.api, fallbacks_of(registry.aliases, cmd.proto.ident)),
    )
}

/// `slot` is what a load attempt over `names` may leave.
pub open spec fn loads<F: Fn(&str) -> usize>(loadfn: &F, names: Seq<Seq<char>>, slot: FnPtr) -> bool {
    exists|ptr: usize| #[trigger] resolves(loadfn, names, ptr) && slot == slot_of(ptr)
}

/// The slot of one command, under the command's name.
#[derive(Clone, Debug)]
pub struct Slot {
    pub name: String,
    pub ptr: FnPtr,
}

pub struct SlotView {
    pub name: Seq<char>,
    pub ptr: FnPtr,
}

impl View for Slot {
    type V = SlotView;

    open spec fn view(&self) -> SlotView {
        SlotView { name: self.name@, ptr: self.ptr }
    }
}

/// What a call of a command does.
#[derive(Clone, Debug)]
pub enum Dispatch {
    /// It goes to the function at this address.
    Call { address: usize },
    /// The command was not loaded: the program stops with the message.
    Missing { command: String, message: String },
}

pub enum DispatchView {
    Call { address: usize },
    Missing { command: Seq<char>, message: Seq<char> },
}

impl View for Dispatch {
    type V = DispatchView;

    open spec fn view(&self) -> DispatchView {
        match self {
            Dispatch::Call { address } => DispatchView::Call { address: *address },
            Dispatch::Missing { command, message } => DispatchView::Missing {
                command: command@,
                message: message@,
            },
        }
    }
}

/// What a call through `slot` does.
pub open spec fn dispatch_of(api: Api, slot: SlotView) -> DispatchView {
    match slot.ptr.f {
        Target::Address(address) => DispatchView::Call { address },
        Target::MissingFnPanic => DispatchView::Missing {
            command: slot.name,
            message: missing_fn_message(api),
        },
    }
}

/// The index of the first slot called `name`.
pub open spec fn slot_index(slots: Seq<SlotView>, name: Seq<char>) -> Option<int>
    decreases slots.len(),
{
    if slots.len() == 0 {
        None
    } else if slots[0].name == name {
        Some(0int)
    } else {
        match slot_index(slots.drop_first(), name) {
            Some(i) => Some(i + 1),
            None => None,
        }
    }
}

/// The slots of the commands of one API, in the order of the registry.
#[derive(Clone, Debug)]
pub struct Bindings {
    pub api: Api,
    pub slots: Vec<Slot>,
}

pub struct BindingsView {
    pub api: Api,
    pub slots: Seq<SlotView>,
}

impl View for Bindings {
    type V = BindingsView;

    open spec fn view(&self) -> BindingsView {
        BindingsView { api: self.api, slots: Seq::new(self.slots@.len(), |i: int| self.slots@[i]@) }
    }
}

/// The bindings of `registry` before anything is loaded: every command has
/// its slot, and every slot leads to the function that stops the program.
pub open spec fn unloaded_bindings(registry: RegistryView) -> BindingsView {
    BindingsView {
        api: registry.api,
        slots: Seq::new(
            registry.cmds.len(),
            |i: int| SlotView { name: registry.cmds[i].proto.ident, ptr: slot_of(NULL) },
        ),
    }
}

/// `bindings` is what loading every command of `registry` through `loadfn`
/// may leave.
pub open spec fn is_load_of<F: Fn(&str) -> usize>(
    loadfn: &F,
    registry: RegistryView,
    bindings: BindingsView,
) -> bool {
    &&& bindings.api == registry.api
    &&& bindings.slots.len() == registry.cmds.len()
    &&& forall|i: int|
        0 <= i < registry.cmds.len() ==> {
            &&& (#[trigger] bindings.slots[i]).name == registry.cmds[i].proto.ident
            &&& loads(loadfn, command_probes(registry, registry.cmds[i]), bindings.slots[i].ptr)
        }
}

impl Bindings {
    /// The table as it is before anything is loaded.
    pub fn unloaded(registry: &Registry) -> (r: Bindings)
        ensures
            r@ == unloaded_bindings(registry@),
    {
        let mut slots: Vec<Slot> = Vec::new();
        let mut i: usize = 0;
        while i < registry.cmds.len()
            invariant
                i <= registry.cmds.len(),
                slots.len() == i,
                forall|k: int|
                    0 <= k < i ==> (#[trigger] slots@[k])@ == (SlotView {
                        name: registry@.cmds[k].proto.ident,
                        ptr: slot_of(NULL),
                    }),
            decreases registry.cmds.len() - i,
        {
            slots.push(Slot { name: registry.cmds[i].proto.ident.clone(), ptr: FnPtr::new(NULL) });
            i += 1;
        }
        let r = Bindings { api: registry.api, slots };
        assert(r@.slots =~= unloaded_bindings(registry@).slots);
        r
    }

    /// Loads the command at `index` of `registry` into its slot. Where
    /// `index` is not that of a command and of a slot, nothing changes.
    pub fn load_command<F: Fn(&str) -> usize>(
        &mut self,
        registry: &Registry,
        index: usize,
        loadfn: &F,
    )
        requires
            forall|s: &str| call_requires(loadfn, (s,)),
        ensures
            final(self).api == old(self).api,
            final(self)@.slots.len() == old(self)@.slots.len(),
            forall|k: int|
                0 <= k < old(self)@.slots.len() && k != index ==> final(self)@.slots[k] == old(
                    self,
                )@.slots[k],
            index < old(self)@.slots.len() && index < registry@.cmds.len() ==> {
                &&& final(self)@.slots[index as int].name == old(self)@.slots[index as int].name
                &&& loads(
                    loadfn,
                    command_probes(registry@, registry@.cmds[index as int]),
                    final(self)@.slots[index as int].ptr,
                )
            },
            !(index < old(self)@.slots.len() && index < registry@.cmds.len()) ==> final(self)@
                == old(self)@,
    {
        if index < self.slots.len() && index < registry.cmds.len() {
            let cmd = &registry.cmds[index];
            let symbol = gen_symbol_name(registry.api, cmd.proto.ident.as_str());
            let ptr = match registry.fallbacks(&cmd.proto.ident) {
                Some(names) => {
                    let fallbacks = gen_symbols(registry.api, names);
                    metaloadfn(loadfn, symbol.as_str(), &fallbacks)
                },
                None => {
                    let fallbacks: Vec<String> = Vec::new();
                    assert(fallbacks.deep_view() =~= symbols(
                        registry@.api,
                        fallbacks_of(registry@.aliases, cmd@.proto.ident),
                    ));
                    metaloadfn(loadfn, symbol.as_str(), &fallbacks)
                },
            };
            assert(resolves(loadfn, command_probes(registry@, registry@.cmds[index as int]), ptr));
            let name = self.slots[index].name.clone();
            self.slots.set(index, Slot { name, ptr: FnPtr::new(ptr) });
        } else {
            assert(self@.slots =~= old(self)@.slots);
        }
    }

    /// Loads every command of `registry`, in the order of the registry, into
    /// a new table.
    pub fn load_with<F: Fn(&str) -> usize>(registry: &Registry, loadfn: &F) -> (r: Bindings)
        requires
            forall|s: &str| call_requires(loadfn, (s,)),
        ensures
            is_load_of(loadfn, registry@, r@),
    {
        let mut table = Bindings::unloaded(registry);
        let mut i: usize = 0;
        while i < registry.cmds.len()
            invariant
                i <= registry.cmds.len(),
                forall|s: &str| call_requires(loadfn, (s,)),
                table.api == registry.api,
                table@.slots.len() == registry@.cmds.len(),
                forall|k: int|
                    0 <= k < registry@.cmds.len() ==> (#[trigger] table@.slots[k]).name
                        == registry@.cmds[k].proto.ident,
                forall|k: int|
                    0 <= k < i ==> loads(
                        loadfn,
                        command_probes(registry@, registry@.cmds[k]),
                        (#[trigger] table@.slots[k]).ptr,
                    ),
            decreases registry.cmds.len() - i,
        {
            table.load_command(registry, i, loadfn);
            i += 1;
        }
        table
    }

    /// Whether the command `name` has been loaded; nothing where the table
    /// has no such command.
    pub fn is_loaded(&self, name: &String) -> (r: Option<bool>)
        ensures
            r == match slot_index(self@.slots, name@) {
                Some(i) => Some(self@.slots[i].ptr.is_loaded),
                None => None,
            },
    {
        match self.find(name) {
            Some(i) => Some(self.slots[i].ptr.is_loaded()),
            None => None,
        }
    }

    /// What a call of the command `name` does; nothing where the table has no
    /// such command.
    pub fn dispatch(&self, name: &String) -> (r: Option<Dispatch>)
        ensures
            match slot_index(self@.slots, name@) {
                Some(i) => r matches Some(d) && d@ == dispatch_of(self.api, self@.slots[i]),
                None => r is None,
            },
    {
        match self.find(name) {
            Some(i) => {
                let slot = &self.slots[i];
                match slot.ptr.f {
                    Target::Address(address) => Some(Dispatch::Call { address }),
                    Target::MissingFnPanic => {
                        let mut message = String::from_str(self.api.name());
                        message.append(NOT_LOADED);
                        Some(Dispatch::Missing { command: slot.name.clone(), message })
                    },
                }
            },
            None => None,
        }
    }

    /// The index of the first slot called `name`.
    pub fn find(&self, name: &String) -> (r: Option<usize>)
        ensures
            match r {
                Some(i) => slot_index(self@.slots, name@) == Some(i as int) && i < self.slots.len(),
                None => slot_index(self@.slots, name@) is None,
            },
    {
        let mut i: usize = 0;
        assert(self@.slots.skip(0) == self@.slots);
        while i < self.slots.len()
            invariant
                i <= self.slots.len(),
                slot_index(self@.slots, name@) == match slot_index(
                    self@.slots.skip(i as int),
                    name@,
                ) {
                    Some(k) => Some(k + i),
                    None => None,
                },
            decreases self.slots.len() - i,
        {
            let ghost rest = self@.slots.skip(i as int);
            assert(rest[0] == self.slots@[i as int]@);
            assert(rest.drop_first() == self@.slots.skip(i + 1));
            if self.slots[i].name == *name {
                return Some(i);
            }
            i += 1;
        }
        None
    }
}

/// `loadfn` answers as `table` says: whenever it is asked for a name, it
/// returns the address that `table` gives for that name.
pub open spec fn answers_by<F: Fn(&str) -> usize>(
    loadfn: &F,
    table: spec_fn(Seq<char>) -> usize,
) -> bool {
    forall|s: &str, ptr: usize| #[trigger] call_ensures(loadfn, (s,), ptr) ==> ptr == table(s@)
}

/// The first address that is not null among those that `table` gives for
/// `names`, in their order; null where there is none.
pub open spec fn first_found(table: spec_fn(Seq<char>) -> usize, names: Seq<Seq<char>>) -> usize
    decreases names.len(),
{
    if names.len() == 0 {
        NULL
    } else if table(names[0]) != NULL {
        table(names[0])
    } else {
        first_found(table, names.drop_first())
    }
}

/// The slots that loading `registry` leaves where names are found as `table`
/// says.
pub open spec fn loaded_bindings(
    table: spec_fn(Seq<char>) -> usize,
    registry: RegistryView,
) -> BindingsView {
    BindingsView {
        api: registry.api,
        slots: Seq::new(
            registry.cmds.len(),
            |i: int|
                SlotView {
                    name: registry.cmds[i].proto.ident,
                    ptr: slot_of(first_found(table, command_probes(registry, registry.cmds[i]))),
                },
        ),
    }
}

/// A pass over `names` asks for the first name before any other and for the
/// others in their order, and stops at the first that is found. So where the
/// first `k` names are not found and the next one is, the pass asks for exactly
/// those `k + 1` names and ends with the address of the last of them.
pub proof fn lemma_first_success_wins<F: Fn(&str) -> usize>(
    loadfn: &F,
    table: spec_fn(Seq<char>) -> usize,
    names: Seq<Seq<char>>,
    trace: Seq<usize>,
    k: int,
)
    requires
        answers_by(loadfn, table),
        is_probe_trace(loadfn, names, trace),
        0 <= k < names.len(),
        forall|j: int| 0 <= j < k ==> table(#[trigger] names[j]) == NULL,
        table(names[k]) != NULL,
    ensures
        trace.len() == k + 1,
        trace.last() == table(names[k]),
{
    lemma_trace_follows_table(loadfn, table, names, trace);
    if trace.len() < k + 1 {
        let last = trace.len() - 1;
        assert(trace[last] == table(names[last]));
    } else if trace.len() > k + 1 {
        assert(trace[k] == NULL);
        assert(trace[k] == table(names[k]));
    }
}

/// Each answer of a pass is the address that the table gives for the name at
/// its place.
pub proof fn lemma_trace_follows_table<F: Fn(&str) -> usize>(
    loadfn: &F,
    table: spec_fn(Seq<char>) -> usize,
    names: Seq<Seq<char>>,
    trace: Seq<usize>,
)
    requires
        answers_by(loadfn, table),
        is_probe_trace(loadfn, names, trace),
    ensures
        forall|i: int| 0 <= i < trace.len() ==> #[trigger] trace[i] == table(names[i]),
{
    assert forall|i: int| 0 <= i < trace.len() implies #[trigger] trace[i] == table(names[i]) by {
        assert(answers(loadfn, names[i], trace[i]));
        let s = choose|s: &str| s@ == names[i] && #[trigger] call_ensures(loadfn, (s,), trace[i]);
        assert(call_ensures(loadfn, (s,), trace[i]));
    }
}

/// What a pass over `names` ends with is decided by the names and by what is
/// found for each: it is the first address found, or null.
pub proof fn lemma_resolves_first_found<F: Fn(&str) -> usize>(
    loadfn: &F,
    table: spec_fn(Seq<char>) -> usize,
    names: Seq<Seq<char>>,
    ptr: usize,
)
    requires
        answers_by(loadfn, table),
        resolves(loadfn, names, ptr),
    ensures
        ptr == first_found(table, names),
{
    let trace = choose|trace: Seq<usize>| #[trigger]
        is_probe_trace(loadfn, names, trace) && ptr == trace.last();
    lemma_trace_follows_table(loadfn, table, names, trace);
    lemma_trace_ends_first_found(table, names, trace);
}

proof fn lemma_trace_ends_first_found(
    table: spec_fn(Seq<char>) -> usize,
    names: Seq<Seq<char>>,
    trace: Seq<usize>,
)
    requires
        1 <= trace.len() <= names.len(),
        forall|i: int| 0 <= i < trace.len() ==> #[trigger] trace[i] == table(names[i]),
        forall|i: int| 0 <= i < trace.len() - 1 ==> #[trigger] trace[i] == NULL,
        trace.last() != NULL || trace.len() == names.len(),
    ensures
        trace.last() == first_found(table, names),
    decreases names.len(),
{
    let rest = names.drop_first();
    if trace.len() == 1 {
        assert(trace[0] == table(names[0]));
        if trace[0] == NULL {
            assert(rest.len() == 0);
            assert(first_found(table, rest) == NULL);
        }
    } else {
        assert(trace[0] == NULL);
        let tail = trace.drop_first();
        assert forall|i: int| 0 <= i < tail.len() implies #[trigger] tail[i] == table(rest[i]) by {
            assert(tail[i] == trace[i + 1]);
            assert(rest[i] == names[i + 1]);
        }
        assert forall|i: int| 0 <= i < tail.len() - 1 implies #[trigger] tail[i] == NULL by {
            assert(tail[i] == trace[i + 1]);
        }
        assert(tail.last() == trace.last());
        lemma_trace_ends_first_found(table, rest, tail);
        assert(first_found(table, names) == first_found(table, rest));
    }
}

/// Loading is repeatable: where the function that looks names up gives for
/// each name one answer, whatever loading the registry through it leaves is
/// decided by the registry and those answers. Two loads through it leave the
/// same slots, with the same addresses and the same marks.
pub proof fn lemma_load_with_idempotent<F: Fn(&str) -> usize>(
    loadfn: &F,
    table: spec_fn(Seq<char>) -> usize,
    registry: RegistryView,
    first: BindingsView,
    second: BindingsView,
)
    requires
        answers_by(loadfn, table),
        is_load_of(loadfn, registry, first),
        is_load_of(loadfn, registry, second),
    ensures
        first == loaded_bindings(table, registry),
        first == second,
{
    lemma_load_of_is_loaded_bindings(loadfn, table, registry, first);
    lemma_load_of_is_loaded_bindings(loadfn, table, registry, second);
}

proof fn lemma_load_of_is_loaded_bindings<F: Fn(&str) -> usize>(
    loadfn: &F,
    table: spec_fn(Seq<char>) -> usize,
    registry: RegistryView,
    bindings: BindingsView,
)
    requires
        answers_by(loadfn, table),
        is_load_of(loadfn, registry, bindings),
    ensures
        bindings == loaded_bindings(table, registry),
{
    let wanted = loaded_bindings(table, registry);
    assert forall|i: int| 0 <= i < bindings.slots.len() implies #[trigger] bindings.slots[i]
        == wanted.slots[i] by {
        let names = command_probes(registry, registry.cmds[i]);
        assert(loads(loadfn, names, bindings.slots[i].ptr));
        let ptr = choose|ptr: usize| #[trigger]
            resolves(loadfn, names, ptr) && bindings.slots[i].ptr == slot_of(ptr);
        lemma_resolves_first_found(loadfn, table, names, ptr);
    }
    assert(bindings.slots =~= wanted.slots);
}

/// Where every name that is asked for is found, every command is loaded
/// after the load, and its slot leads to an address.
pub proof fn lemma_all_found_all_loaded<F: Fn(&str) -> usize>(
    loadfn: &F,
    registry: RegistryView,
    bindings: BindingsView,
)
    requires
        forall|s: &str, ptr: usize| #[trigger] call_ensures(loadfn, (s,), ptr) ==> ptr != NULL,
        is_load_of(loadfn, registry, bindings),
    ensures
        forall|i: int|
            0 <= i < bindings.slots.len() ==> {
                &&& (#[trigger] bindings.slots[i]).ptr.is_loaded
                &&& bindings.slots[i].ptr.f is Address
            },
{
    assert forall|i: int| 0 <= i < bindings.slots.len() implies {
        &&& (#[trigger] bindings.slots[i]).ptr.is_loaded
        &&& bindings.slots[i].ptr.f is Address
    } by {
        let names = command_probes(registry, registry.cmds[i]);
        assert(loads(loadfn, names, bindings.slots[i].ptr));
        let ptr = choose|ptr: usize| #[trigger]
            resolves(loadfn, names, ptr) && bindings.slots[i].ptr == slot_of(ptr);
        let trace = choose|trace: Seq<usize>| #[trigger]
            is_probe_trace(loadfn, names, trace) && ptr == trace.last();
        let last = trace.len() - 1;
        assert(answers(loadfn, names[last], trace[last]));
    }
}

/// Where no name that is asked for is found, no command is loaded after the
/// load: the table is the one that nothing was loaded into, and every slot
/// leads to the function that stops the program.
pub proof fn lemma_none_found_none_loaded<F: Fn(&str) -> usize>(
    loadfn: &F,
    registry: RegistryView,
    bindings: BindingsView,
)
    requires
        forall|s: &str, ptr: usize| #[trigger] call_ensures(loadfn, (s,), ptr) ==> ptr == NULL,
        is_load_of(loadfn, registry, bindings),
    ensures
        bindings == unloaded_bindings(registry),
        forall|i: int|
            0 <= i < bindings.slots.len() ==> {
                &&& !(#[trigger] bindings.slots[i]).ptr.is_loaded
                &&& bindings.slots[i].ptr.f is MissingFnPanic
            },
{
    assert forall|i: int| 0 <= i < bindings.slots.len() implies #[trigger] bindings.slots[i]
        == unloaded_bindings(registry).slots[i] by {
        let names = command_probes(registry, registry.cmds[i]);
        assert(loads(loadfn, names, bindings.slots[i].ptr));
        let ptr = choose|ptr: usize| #[trigger]
            resolves(loadfn, names, ptr) && bindings.slots[i].ptr == slot_of(ptr);
        let trace = choose|trace: Seq<usize>| #[trigger]
            is_probe_trace(loadfn, names, trace) && ptr == trace.last();
        let last = trace.len() - 1;
        assert(answers(loadfn, names[last], trace[last]));
    }
    assert(bindings.slots =~= unloaded_bindings(registry).slots);
}

} // verus!

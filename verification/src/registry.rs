//! The registry: the commands, constants and fallback names of one API surface.

use vstd::prelude::*;
use vstd::string::*;

verus! {

/// The API family that a registry describes.
#[derive(Clone, Copy, Debug, PartialEq, Eq, Structural)]
pub enum Api {
    Gl,
    Glx,
    Wgl,
    Egl,
    GlCore,
    Gles1,
    Gles2,
    Glsc2,
}

pub const API_GL: &'static str = "gl";

pub const API_GLX: &'static str = "glx";

pub const API_WGL: &'static str = "wgl";

pub const API_EGL: &'static str = "egl";

pub const API_GLCORE: &'static str = "glcore";

pub const API_GLES1: &'static str = "gles1";

pub const API_GLES2: &'static str = "gles2";

pub const API_GLSC2: &'static str = "glsc2";

/// The lower-case name under which an API family is written in messages.
pub open spec fn api_name(api: Api) -> Seq<char> {
    match api {
        Api::Gl => API_GL@,
        Api::Glx => API_GLX@,
        Api::Wgl => API_WGL@,
        Api::Egl => API_EGL@,
        Api::GlCore => API_GLCORE@,
        Api::Gles1 => API_GLES1@,
        Api::Gles2 => API_GLES2@,
        Api::Glsc2 => API_GLSC2@,
    }
}

impl Api {
    pub fn name(&self) -> (r: &'static str)
        ensures
            r@ == api_name(*self),
    {
        match self {
            Api::Gl => API_GL,
            Api::Glx => API_GLX,
            Api::Wgl => API_WGL,
            Api::Egl => API_EGL,
            Api::GlCore => API_GLCORE,
            Api::Gles1 => API_GLES1,
            Api::Gles2 => API_GLES2,
            Api::Glsc2 => API_GLSC2,
        }
    }
}

/// A named constant of the API.
#[derive(Clone, Debug)]
pub struct Enum {
    pub ident: String,
    /// The value as the source writes it, a literal of the target language.
    pub value: String,
    /// The type the source asks for, if it names one.
    pub ty: Option<String>,
}

pub struct EnumView {
    pub ident: Seq<char>,
    pub value: Seq<char>,
    pub ty: Option<Seq<char>>,
}

impl View for Enum {
    type V = EnumView;

    open spec fn view(&self) -> EnumView {
        EnumView {
            ident: self.ident@,
            value: self.value@,
            ty: match self.ty {
                Some(t) => Some(t@),
                None => None,
            },
        }
    }
}

/// A name with its type descriptor: a parameter, or a command's name with its
/// return type. The descriptor is carried through as text.
#[derive(Clone, Debug)]
pub struct Binding {
    pub ident: String,
    pub ty: String,
}

pub struct BindingView {
    pub ident: Seq<char>,
    pub ty: Seq<char>,
}

impl View for Binding {
    type V = BindingView;

    open spec fn view(&self) -> BindingView {
        BindingView { ident: self.ident@, ty: self.ty@ }
    }
}

/// One callable entry point.
#[derive(Clone, Debug)]
pub struct Cmd {
    pub proto: Binding,
    pub params: Vec<Binding>,
}

pub struct CmdView {
    pub proto: BindingView,
    pub params: Seq<BindingView>,
}

impl View for Cmd {
    type V = CmdView;

    open spec fn view(&self) -> CmdView {
        CmdView {
            proto: self.proto@,
            params: Seq::new(self.params@.len(), |i: int| self.params@[i]@),
        }
    }
}

/// The fallback names registered for one command, in the order they are tried.
#[derive(Clone, Debug)]
pub struct Alias {
    pub name: String,
    pub fallbacks: Vec<String>,
}

pub struct AliasView {
    pub name: Seq<char>,
    pub fallbacks: Seq<Seq<char>>,
}

impl View for Alias {
    type V = AliasView;

    open spec fn view(&self) -> AliasView {
        AliasView { name: self.name@, fallbacks: self.fallbacks.deep_view() }
    }
}

/// The description of one API surface. `enums` and `cmds` are kept in the order
/// in which they are emitted.
#[derive(Clone, Debug)]
pub struct Registry {
    pub api: Api,
    pub enums: Vec<Enum>,
    pub cmds: Vec<Cmd>,
    pub aliases: Vec<Alias>,
}

pub struct RegistryView {
    pub api: Api,
    pub enums: Seq<EnumView>,
    pub cmds: Seq<CmdView>,
    pub aliases: Seq<AliasView>,
}

impl View for Registry {
    type V = RegistryView;

    open spec fn view(&self) -> RegistryView {
        RegistryView {
            api: self.api,
            enums: Seq::new(self.enums@.len(), |i: int| self.enums@[i]@),
            cmds: Seq::new(self.cmds@.len(), |i: int| self.cmds@[i]@),
            aliases: Seq::new(self.aliases@.len(), |i: int| self.aliases@[i]@),
        }
    }
}

/// The fallbacks of the first entry registered under `name`, if there is one.
pub open spec fn lookup_fallbacks(aliases: Seq<AliasView>, name: Seq<char>) -> Option<
    Seq<Seq<char>>,
>
    decreases aliases.len(),
{
    if aliases.len() == 0 {
        None
    } else if aliases[0].name == name {
        Some(aliases[0].fallbacks)
    } else {
        lookup_fallbacks(aliases.drop_first(), name)
    }
}

/// The names probed after a command's own, none where nothing is registered.
pub open spec fn fallbacks_of(aliases: Seq<AliasView>, name: Seq<char>) -> Seq<Seq<char>> {
    match lookup_fallbacks(aliases, name) {
        Some(names) => names,
        None => Seq::empty(),
    }
}

/// Whether a command called `name` is registered.
pub open spec fn has_command(cmds: Seq<CmdView>, name: Seq<char>) -> bool {
    exists|i: int| 0 <= i < cmds.len() && #[trigger] cmds[i].proto.ident == name
}

/// The first entry under `name` decides what is found for it.
pub proof fn lemma_lookup_first(aliases: Seq<AliasView>, name: Seq<char>, i: int)
    requires
        0 <= i < aliases.len(),
        aliases[i].name == name,
        forall|k: int| 0 <= k < i ==> (#[trigger] aliases[k]).name != name,
    ensures
        lookup_fallbacks(aliases, name) == Some(aliases[i].fallbacks),
    decreases i,
{
    if i > 0 {
        assert(aliases[0].name != name);
        let rest = aliases.drop_first();
        assert forall|k: int| 0 <= k < i - 1 implies (#[trigger] rest[k]).name != name by {
            assert(rest[k] == aliases[k + 1]);
        }
        lemma_lookup_first(rest, name, i - 1);
    }
}

/// Nothing is found for a name that no entry stands under.
pub proof fn lemma_lookup_absent(aliases: Seq<AliasView>, name: Seq<char>)
    requires
        forall|k: int| 0 <= k < aliases.len() ==> (#[trigger] aliases[k]).name != name,
    ensures
        lookup_fallbacks(aliases, name) is None,
    decreases aliases.len(),
{
    if aliases.len() > 0 {
        assert(aliases[0].name != name);
        let rest = aliases.drop_first();
        assert forall|k: int| 0 <= k < rest.len() implies (#[trigger] rest[k]).name != name by {
            assert(rest[k] == aliases[k + 1]);
        }
        lemma_lookup_absent(rest, name);
    }
}

/// What is found for a name depends on the entries under that name alone.
pub proof fn lemma_lookup_same(before: Seq<AliasView>, after: Seq<AliasView>, name: Seq<char>)
    requires
        before.len() <= after.len(),
        forall|k: int|
            0 <= k < before.len() ==> (#[trigger] before[k]).name == name || after[k].name == name
                ==> before[k] == after[k],
        forall|k: int| before.len() <= k < after.len() ==> (#[trigger] after[k]).name != name,
    ensures
        lookup_fallbacks(before, name) == lookup_fallbacks(after, name),
    decreases after.len(),
{
    if before.len() == 0 {
        lemma_lookup_absent(after, name);
    } else {
        assert(before[0].name == name || after[0].name == name ==> before[0] == after[0]);
        if before[0].name != name {
            let b = before.drop_first();
            let a = after.drop_first();
            assert forall|k: int| 0 <= k < b.len() && ((#[trigger] b[k]).name == name
                || a[k].name == name) implies b[k] == a[k] by {
                assert(b[k] == before[k + 1]);
                assert(a[k] == after[k + 1]);
            }
            assert forall|k: int| b.len() <= k < a.len() implies (#[trigger] a[k]).name != name by {
                assert(a[k] == after[k + 1]);
            }
            lemma_lookup_same(b, a, name);
        }
    }
}

impl Registry {
    /// A registry of `api` with nothing in it.
    pub fn new(api: Api) -> (r: Registry)
        ensures
            r@ == (RegistryView {
                api,
                enums: Seq::empty(),
                cmds: Seq::empty(),
                aliases: Seq::empty(),
            }),
    {
        let r = Registry { api, enums: Vec::new(), cmds: Vec::new(), aliases: Vec::new() };
        assert(r@.enums =~= Seq::empty());
        assert(r@.cmds =~= Seq::empty());
        assert(r@.aliases =~= Seq::empty());
        r
    }

    /// Registers `fallback` as the last fallback of the command `name`: it is
    /// tried after those registered before it. The fallbacks of every other
    /// command stay as they are.
    pub fn add_fallback(&mut self, name: String, fallback: String)
        ensures
            final(self)@.api == old(self)@.api,
            final(self)@.enums == old(self)@.enums,
            final(self)@.cmds == old(self)@.cmds,
            lookup_fallbacks(final(self)@.aliases, name@) == Some(
                fallbacks_of(old(self)@.aliases, name@).push(fallback@),
            ),
            forall|other: Seq<char>|
                other != name@ ==> lookup_fallbacks(final(self)@.aliases, other)
                    == lookup_fallbacks(old(self)@.aliases, other),
    {
        let ghost before = self@.aliases;
        let ghost wanted = fallbacks_of(before, name@).push(fallback@);
        let mut i: usize = 0;
        while i < self.aliases.len()
            invariant
                i <= self.aliases.len(),
                *self == *old(self),
                before == self@.aliases,
                forall|k: int| 0 <= k < i ==> (#[trigger] before[k]).name != name@,
            decreases self.aliases.len() - i,
        {
            if self.aliases[i].name == name {
                let mut alias = self.aliases.remove(i);
                assert(alias@ == before[i as int]);
                alias.fallbacks.push(fallback);
                assert(alias@.fallbacks =~= before[i as int].fallbacks.push(fallback@));
                self.aliases.insert(i, alias);
                proof {
                    let after = self@.aliases;
                    lemma_lookup_first(before, name@, i as int);
                    assert(after.len() == before.len());
                    assert(after[i as int] == alias@);
                    assert forall|k: int| 0 <= k < after.len() && k != i implies #[trigger] after[k]
                        == before[k] by {
                        assert(self.aliases@[k] == old(self).aliases@[k]);
                    }
                    lemma_lookup_first(after, name@, i as int);
                    assert forall|other: Seq<char>| other != name@ implies lookup_fallbacks(
                        after,
                        other,
                    ) == lookup_fallbacks(before, other) by {
                        lemma_lookup_same(before, after, other);
                    }
                    assert(self@.enums =~= old(self)@.enums);
                    assert(self@.cmds =~= old(self)@.cmds);
                }
                return ;
            }
            i += 1;
        }
        let mut fallbacks: Vec<String> = Vec::new();
        fallbacks.push(fallback);
        let alias = Alias { name, fallbacks };
        assert(alias@.fallbacks =~= seq![fallback@]);
        self.aliases.push(alias);
        proof {
            let after = self@.aliases;
            let last = before.len() as int;
            lemma_lookup_absent(before, name@);
            assert(wanted =~= seq![fallback@]);
            assert(after.len() == before.len() + 1);
            assert(after[last] == alias@);
            assert forall|k: int| 0 <= k < before.len() implies #[trigger] after[k] == before[k] by {
                assert(self.aliases@[k] == old(self).aliases@[k]);
            }
            lemma_lookup_first(after, name@, last);
            assert forall|other: Seq<char>| other != name@ implies lookup_fallbacks(after, other)
                == lookup_fallbacks(before, other) by {
                lemma_lookup_same(before, after, other);
            }
            assert(self@.enums =~= old(self)@.enums);
            assert(self@.cmds =~= old(self)@.cmds);
        }
    }

    /// Whether a command called `name` is registered.
    pub fn has_cmd(&self, name: &String) -> (r: bool)
        ensures
            r == has_command(self@.cmds, name@),
    {
        let mut i: usize = 0;
        while i < self.cmds.len()
            invariant
                i <= self.cmds.len(),
                forall|k: int| 0 <= k < i ==> #[trigger] self@.cmds[k].proto.ident != name@,
            decreases self.cmds.len() - i,
        {
            if self.cmds[i].proto.ident == *name {
                assert(self@.cmds[i as int].proto.ident == name@);
                return true;
            }
            i += 1;
        }
        false
    }

    /// The fallback names registered for the command `name`.
    pub fn fallbacks(&self, name: &String) -> (r: Option<&Vec<String>>)
        ensures
            match r {
                Some(names) => lookup_fallbacks(self@.aliases, name@) == Some(names.deep_view()),
                None => lookup_fallbacks(self@.aliases, name@) is None,
            },
    {
        let mut i: usize = 0;
        assert(self@.aliases.skip(0) == self@.aliases);
        while i < self.aliases.len()
            invariant
                i <= self.aliases.len(),
                lookup_fallbacks(self@.aliases, name@) == lookup_fallbacks(
                    self@.aliases.skip(i as int),
                    name@,
                ),
            decreases self.aliases.len() - i,
        {
            let ghost rest = self@.aliases.skip(i as int);
            assert(rest[0] == self.aliases@[i as int]@);
            assert(rest.drop_first() == self@.aliases.skip(i + 1));
            if self.aliases[i].name == *name {
                return Some(&self.aliases[i].fallbacks);
            }
            i += 1;
        }
        None
    }
}

} // verus!

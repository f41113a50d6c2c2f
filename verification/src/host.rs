//! The host state machine: it owns at most one loaded module, the module's
//! shared state and optional custom prompt, and the registry of commands the
//! module registered. Loading, registration, dispatch and unloading are its
//! only transitions; unloading atomically forgets every command and the
//! prompt that came from the module.

use vstd::prelude::*;
use crate::handler::{CommandAction, CommandHandler};

verus! {

/// A source of custom prompt text, implemented by the module side for its
/// shared state. Rendering may update the state it reads.
pub trait PromptSource: Sized {
    /// What one rendering does: the new state and the text shown.
    spec fn rendered(self) -> (Self, Seq<char>);

    /// Executable rendering; behaves exactly as `rendered` says.
    fn render(&mut self) -> (r: String)
        ensures
            ({
                let (m2, text) = old(self).rendered();
                &&& *final(self) == m2
                &&& r@ == text
            }),
    ;
}

/// The module the host currently holds open: its path, the state its
/// commands and prompt share, and whether it brought a custom prompt.
pub struct LoadedModule<M> {
    path: String,
    shared: M,
    has_custom_prompt: bool,
}

impl<M> LoadedModule<M> {
    /// The path the module was opened from.
    pub closed spec fn spec_path(self) -> Seq<char> {
        self.path@
    }

    /// The module-shared state.
    pub closed spec fn spec_shared(self) -> M {
        self.shared
    }

    /// Whether the module replaces the default prompt.
    pub closed spec fn spec_has_custom_prompt(self) -> bool {
        self.has_custom_prompt
    }
}

/// The host's whole mutable state: at most one loaded module and the
/// registry of commands registered by it, in registration order.
pub struct HostState<A: CommandAction> {
    module: Option<LoadedModule<A::Shared>>,
    handlers: Vec<CommandHandler<A>>,
}

impl<A: CommandAction> HostState<A> {
    /// The loaded module, if any.
    pub closed spec fn spec_module(self) -> Option<LoadedModule<A::Shared>> {
        self.module
    }

    /// The registered handlers, in registration order.
    pub closed spec fn spec_handlers(self) -> Seq<CommandHandler<A>> {
        self.handlers@
    }

    /// Whether a module is loaded.
    pub open spec fn loaded(self) -> bool {
        self.spec_module() is Some
    }

    /// The path of the loaded module, if any.
    pub open spec fn loaded_path(self) -> Option<Seq<char>> {
        match self.spec_module() {
            Some(m) => Some(m.spec_path()),
            None => None,
        }
    }

    /// Whether the loaded module replaces the default prompt.
    pub open spec fn has_custom_prompt(self) -> bool {
        match self.spec_module() {
            Some(m) => m.spec_has_custom_prompt(),
            None => false,
        }
    }

    /// The module-shared state, meaningful only while a module is loaded.
    pub open spec fn spec_shared(self) -> A::Shared {
        self.spec_module().unwrap().spec_shared()
    }

    /// The registered command names, in registration order.
    pub open spec fn names(self) -> Seq<Seq<char>> {
        Seq::new(self.spec_handlers().len(), |i: int| self.spec_handlers()[i].spec_name())
    }

    /// Whether some handler is registered under `name`.
    pub open spec fn contains_name(self, name: Seq<char>) -> bool {
        exists|i: int| 0 <= i < self.names().len() && self.names()[i] == name
    }

    /// The registry index of the handler registered under `name`; with
    /// distinct names there is exactly one.
    pub open spec fn index_of(self, name: Seq<char>) -> int {
        choose|i: int| 0 <= i < self.names().len() && self.names()[i] == name
    }

    /// Well-formedness: registered names are distinct, and commands exist
    /// only while their module is loaded.
    pub open spec fn wf(self) -> bool {
        &&& forall|i: int, j: int|
            0 <= i < j < self.names().len() ==> self.names()[i] != self.names()[j]
        &&& (self.spec_module() is None ==> self.spec_handlers().len() == 0)
    }

    /// A fresh host: nothing loaded, no commands, the default prompt.
    pub fn new() -> (r: Self)
        ensures
            r.wf(),
            !r.loaded(),
            r.spec_handlers().len() == 0,
    {
        let r = HostState { module: None, handlers: Vec::new() };
        proof {
            assert(r.names().len() == 0);
        }
        r
    }

    /// Marks `path`'s module loaded, with its shared state and whether it
    /// brought a custom prompt. Called once the module is actually open;
    /// registration follows through `register_command`.
    pub fn complete_load(&mut self, path: String, shared: A::Shared, has_custom_prompt: bool)
        requires
            old(self).wf(),
            !old(self).loaded(),
        ensures
            final(self).wf(),
            final(self).loaded(),
            final(self).loaded_path() == Some(path@),
            final(self).spec_shared() == shared,
            final(self).has_custom_prompt() == has_custom_prompt,
            final(self).spec_handlers() == old(self).spec_handlers(),
    {
        self.module = Some(LoadedModule { path, shared, has_custom_prompt });
    }

    /// The registration callback's decision: a handler under a fresh name is
    /// appended to the registry; one under an already-registered name is
    /// rejected and handed back whole to the registering side, which then
    /// still owns it and must destroy it; the registry is unchanged.
    pub fn register_command(&mut self, handler: CommandHandler<A>) -> (r: Option<
        CommandHandler<A>,
    >)
        requires
            old(self).wf(),
            old(self).loaded(),
        ensures
            final(self).wf(),
            final(self).spec_module() == old(self).spec_module(),
            old(self).contains_name(handler.spec_name()) ==> {
                &&& r == Some(handler)
                &&& *final(self) == *old(self)
            },
            !old(self).contains_name(handler.spec_name()) ==> {
                &&& r is None
                &&& final(self).spec_handlers() == old(self).spec_handlers().push(handler)
            },
    {
        let n = self.handlers.len();
        let mut idx: usize = 0;
        while idx < n
            invariant
                idx <= n,
                n == self.spec_handlers().len(),
                *self == *old(self),
                old(self).wf(),
                forall|k: int| 0 <= k < idx ==> self.names()[k] != handler.spec_name(),
            decreases n - idx,
        {
            if crate::parse::str_eq(self.handlers[idx].name(), handler.name()) {
                proof {
                    assert(self.names()[idx as int] == handler.spec_name());
                }
                return Some(handler);
            }
            idx = idx + 1;
        }
        proof {
            assert(!self.contains_name(handler.spec_name()));
        }
        let ghost pre = *self;
        self.handlers.push(handler);
        proof {
            assert forall|i: int, j: int|
                0 <= i < j < self.names().len() implies self.names()[i] != self.names()[j] by {
                if j < pre.names().len() {
                    assert(pre.names()[i] == self.names()[i]);
                    assert(pre.names()[j] == self.names()[j]);
                } else {
                    assert(self.names()[j] == handler.spec_name());
                    assert(self.names()[i] == pre.names()[i]);
                }
            }
        }
        None
    }

    /// Dispatch: an unregistered name changes nothing and reports that no
    /// command was found; a registered name invokes exactly the handler
    /// registered under it — never another's — advancing that handler's
    /// captured state and the module-shared state as its action says, and
    /// yields its success flag and diagnostic.
    pub fn dispatch(&mut self, command: &str, args: &Vec<String>) -> (r: Option<(
        bool,
        Option<String>,
    )>)
        requires
            old(self).wf(),
        ensures
            final(self).wf(),
            !old(self).contains_name(command@) ==> {
                &&& r is None
                &&& *final(self) == *old(self)
            },
            old(self).contains_name(command@) ==> ({
                let i = old(self).index_of(command@);
                let h = old(self).spec_handlers()[i];
                let (a2, m2, ok, report) = h.spec_action().step(
                    old(self).spec_shared(),
                    args.deep_view(),
                );
                &&& r matches Some(out)
                &&& out.0 == ok
                &&& out.1.deep_view() == report
                &&& final(self).spec_module() is Some
                &&& final(self).loaded_path() == old(self).loaded_path()
                &&& final(self).has_custom_prompt() == old(self).has_custom_prompt()
                &&& final(self).spec_shared() == m2
                &&& final(self).spec_handlers().len() == old(self).spec_handlers().len()
                &&& final(self).spec_handlers()[i].spec_name() == h.spec_name()
                &&& final(self).spec_handlers()[i].spec_action() == a2
                &&& forall|j: int|
                    0 <= j < old(self).spec_handlers().len() && j != i
                        ==> final(self).spec_handlers()[j] == old(self).spec_handlers()[j]
            }),
    {
        let n = self.handlers.len();
        let mut idx: usize = 0;
        while idx < n
            invariant
                idx <= n,
                n == self.spec_handlers().len(),
                *self == *old(self),
                old(self).wf(),
                forall|k: int| 0 <= k < idx ==> self.names()[k] != command@,
            decreases n - idx,
        {
            if crate::parse::str_eq(self.handlers[idx].name(), command) {
                proof {
                    assert(self.names()[idx as int] == command@);
                    assert(old(self).contains_name(command@));
                    let ci = old(self).index_of(command@);
                    assert(0 <= ci < old(self).names().len() && old(self).names()[ci]
                        == command@);
                    if ci < idx as int {
                        assert(old(self).names()[ci] != command@);
                        assert(false);
                    } else if ci > idx as int {
                        assert(old(self).names()[idx as int] != old(self).names()[ci]);
                        assert(false);
                    }
                    assert(ci == idx as int);
                }
                let ghost pre = *self;
                let mut h = self.handlers.remove(idx);
                let out = match &mut self.module {
                    Some(m) => h.call(&mut m.shared, args),
                    None => {
                        proof {
                            assert(pre.spec_module() is None);
                            assert(pre.spec_handlers().len() == 0);
                            assert(false);
                        }
                        vstd::pervasive::unreached()
                    },
                };
                self.handlers.insert(idx, h);
                proof {
                    assert(self.spec_handlers() =~= pre.spec_handlers().update(
                        idx as int,
                        self.spec_handlers()[idx as int],
                    ));
                    assert(self.names() =~= pre.names());
                }
                return Some(out);
            }
            idx = idx + 1;
        }
        proof {
            assert(!self.contains_name(command@));
        }
        None
    }

    /// Unloading: with nothing loaded, nothing changes and `None` says so;
    /// otherwise the module, every command registered from it and its prompt
    /// are forgotten together, and the unloaded module's path comes back for
    /// the host to report.
    pub fn unload(&mut self) -> (r: Option<String>)
        requires
            old(self).wf(),
        ensures
            final(self).wf(),
            !final(self).loaded(),
            final(self).spec_handlers().len() == 0,
            !final(self).has_custom_prompt(),
            match r {
                None => !old(self).loaded() && *final(self) == *old(self),
                Some(p) => old(self).loaded() && old(self).loaded_path() == Some(p@),
            },
    {
        match self.module.take() {
            None => {
                proof {
                    assert(self.spec_handlers().len() == 0);
                }
                None
            },
            Some(m) => {
                self.handlers.clear();
                proof {
                    assert(self.names().len() == 0);
                }
                Some(m.path)
            },
        }
    }
}

/// What the host should do about a load request, decided before any
/// platform loader call is made.
pub enum LoadPlan {
    /// A module is already loaded; only one may be active, so the request
    /// is turned down with a message, not an error.
    AlreadyLoaded,
    /// The request did not carry exactly one argument, the path.
    MissingPath,
    /// Open the module at this path.
    Open(String),
}

/// The text of the default prompt.
pub open spec fn default_prompt() -> Seq<char> {
    "> "@
}

impl<A: CommandAction> HostState<A> {
    /// The load-request decision: a second load while a module is active is
    /// turned down; a request without exactly one argument lacks the path;
    /// otherwise the module at the given path is to be opened.
    pub fn plan_load(&self, args: &Vec<String>) -> (r: LoadPlan)
        ensures
            self.loaded() ==> r == LoadPlan::AlreadyLoaded,
            !self.loaded() && args@.len() != 1 ==> r == LoadPlan::MissingPath,
            !self.loaded() && args@.len() == 1 ==> (r matches LoadPlan::Open(p) && p@
                == args@[0]@),
    {
        if self.module.is_some() {
            LoadPlan::AlreadyLoaded
        } else if args.len() != 1 {
            LoadPlan::MissingPath
        } else {
            LoadPlan::Open(args[0].clone())
        }
    }

    /// Whether a module is currently loaded.
    pub fn is_loaded(&self) -> (r: bool)
        ensures
            r == self.loaded(),
    {
        self.module.is_some()
    }

    /// The registered command names, in registration order, for listing.
    pub fn command_names(&self) -> (r: Vec<String>)
        ensures
            r.deep_view() == self.names(),
    {
        let n = self.handlers.len();
        let mut out: Vec<String> = Vec::new();
        let mut idx: usize = 0;
        while idx < n
            invariant
                idx <= n,
                n == self.spec_handlers().len(),
                out.deep_view().len() == idx,
                forall|k: int| 0 <= k < idx ==> out.deep_view()[k] == self.names()[k],
            decreases n - idx,
        {
            let ghost old_out = out.deep_view();
            out.push(self.handlers[idx].name().to_owned());
            proof {
                assert(out.deep_view() =~= old_out.push(self.names()[idx as int]));
            }
            idx = idx + 1;
        }
        proof {
            assert(out.deep_view() =~= self.names());
        }
        out
    }
}

impl<A: CommandAction> HostState<A> where A::Shared: PromptSource {
    /// The prompt to show before reading the next line: the default prompt,
    /// unless the loaded module brought a custom one, which then renders
    /// from — and may update — the module-shared state.
    pub fn render_prompt(&mut self) -> (r: String)
        requires
            old(self).wf(),
        ensures
            final(self).wf(),
            !old(self).has_custom_prompt() ==> r@ == default_prompt() && *final(self) == *old(
                self,
            ),
            old(self).has_custom_prompt() ==> ({
                let (m2, text) = old(self).spec_shared().rendered();
                &&& r@ == text
                &&& final(self).spec_shared() == m2
                &&& final(self).loaded_path() == old(self).loaded_path()
                &&& final(self).has_custom_prompt()
                &&& final(self).spec_handlers() == old(self).spec_handlers()
            }),
    {
        match &mut self.module {
            Some(m) => {
                if m.has_custom_prompt {
                    let r = m.shared.render();
                    proof {
                        assert(self.names() =~= old(self).names());
                    }
                    r
                } else {
                    String::from_str("> ")
                }
            },
            None => String::from_str("> "),
        }
    }
}

/// The lines the help listing shows: the built-in commands first, then the
/// loaded module's commands, indented and in registration order, under
/// their own heading when any are registered.
pub open spec fn help_lines_spec(names: Seq<Seq<char>>) -> Seq<Seq<char>> {
    let fixed = seq![
        "supported commands:"@,
        "   help"@,
        "   echo"@,
        "   exit"@,
        "   load-plugin"@,
        "   unload-all-plugins"@,
    ];
    if names.len() == 0 {
        fixed
    } else {
        fixed.push("commands from plugins:"@) + Seq::new(names.len(), |i: int| "   "@ + names[i])
    }
}

/// Builds the help listing shown for a registry with the given command
/// names.
pub fn help_listing(names: &Vec<String>) -> (r: Vec<String>)
    ensures
        r.deep_view() == help_lines_spec(names.deep_view()),
{
    let mut out: Vec<String> = Vec::new();
    out.push(String::from_str("supported commands:"));
    out.push(String::from_str("   help"));
    out.push(String::from_str("   echo"));
    out.push(String::from_str("   exit"));
    out.push(String::from_str("   load-plugin"));
    out.push(String::from_str("   unload-all-plugins"));
    let n = names.len();
    if n == 0 {
        proof {
            assert(out.deep_view() =~= help_lines_spec(names.deep_view()));
        }
        out
    } else {
        out.push(String::from_str("commands from plugins:"));
        let ghost base = out.deep_view();
        let ghost nv = names.deep_view();
        let mut idx: usize = 0;
        proof {
            assert(out.deep_view() =~= base + Seq::new(0, |i: int| "   "@ + nv[i]));
        }
        while idx < n
            invariant
                idx <= n,
                n == names@.len(),
                nv == names.deep_view(),
                base.len() == 7,
                out.deep_view() =~= base + Seq::new(idx as nat, |i: int| "   "@ + nv[i]),
            decreases n - idx,
        {
            let ghost prev = out.deep_view();
            let line = String::from_str("   ").concat(names[idx].as_str());
            out.push(line);
            proof {
                assert(line@ == "   "@ + nv[idx as int]);
                assert(out.deep_view() =~= prev.push(line@));
                assert(out.deep_view() =~= base + Seq::new(
                    (idx + 1) as nat,
                    |i: int| "   "@ + nv[i],
                ));
            }
            idx = idx + 1;
        }
        proof {
            assert(base =~= seq![
                "supported commands:"@,
                "   help"@,
                "   echo"@,
                "   exit"@,
                "   load-plugin"@,
                "   unload-all-plugins"@,
            ].push("commands from plugins:"@));
            assert(out.deep_view() =~= help_lines_spec(names.deep_view()));
        }
        out
    }
}

impl<A: CommandAction> HostState<A> {
    /// Builds the help listing for the current registry.
    pub fn help_lines(&self) -> (r: Vec<String>)
        ensures
            r.deep_view() == help_lines_spec(self.names()),
    {
        let listed = self.command_names();
        help_listing(&listed)
    }
}

/// What one line of input asks the host to do.
pub enum Directive {
    /// The line held no word at all; read the next one.
    Blank,
    /// List the supported commands.
    Help,
    /// Print the arguments back.
    Echo(Vec<String>),
    /// Leave the loop.
    Exit,
    /// Load the module the arguments name.
    LoadPlugin(Vec<String>),
    /// Unload whatever is loaded.
    UnloadAll,
    /// Dispatch to a registered command of the loaded module.
    Plugin(String, Vec<String>),
}

/// Reads one input line as a directive: the first word picks the built-in
/// command, and any other first word is an attempted plugin command.
pub fn interpret(line: &str) -> (r: Directive)
    ensures
        ({
            let toks = crate::parse::tokens(line@);
            if toks.len() == 0 {
                r == Directive::Blank
            } else {
                let cmd = toks[0];
                let rest = toks.drop_first();
                if cmd == "help"@ {
                    r == Directive::Help
                } else if cmd == "echo"@ {
                    r matches Directive::Echo(a) && a.deep_view() == rest
                } else if cmd == "exit"@ {
                    r == Directive::Exit
                } else if cmd == "load-plugin"@ {
                    r matches Directive::LoadPlugin(a) && a.deep_view() == rest
                } else if cmd == "unload-all-plugins"@ {
                    r == Directive::UnloadAll
                } else {
                    r matches Directive::Plugin(c, a) && c@ == cmd && a.deep_view() == rest
                }
            }
        }),
{
    match crate::parse::parse_command(line) {
        None => Directive::Blank,
        Some((cmd, args)) => {
            if crate::parse::str_eq(cmd.as_str(), "help") {
                Directive::Help
            } else if crate::parse::str_eq(cmd.as_str(), "echo") {
                Directive::Echo(args)
            } else if crate::parse::str_eq(cmd.as_str(), "exit") {
                Directive::Exit
            } else if crate::parse::str_eq(cmd.as_str(), "load-plugin") {
                Directive::LoadPlugin(args)
            } else if crate::parse::str_eq(cmd.as_str(), "unload-all-plugins") {
                Directive::UnloadAll
            } else {
                Directive::Plugin(cmd, args)
            }
        },
    }
}

/// In a well-formed registry, every registered name leads to exactly the
/// handler registered under it, never another's: dispatch on the name of
/// the handler at any position resolves to that position.
pub proof fn lemma_name_targets_own_handler<A: CommandAction>(st: HostState<A>, i: int)
    requires
        st.wf(),
        0 <= i < st.spec_handlers().len(),
    ensures
        st.contains_name(st.spec_handlers()[i].spec_name()),
        st.index_of(st.spec_handlers()[i].spec_name()) == i,
{
    let n = st.spec_handlers()[i].spec_name();
    assert(st.names()[i] == n);
    let ci = st.index_of(n);
    assert(0 <= ci < st.names().len() && st.names()[ci] == n);
    if ci < i {
        assert(st.names()[ci] != st.names()[i]);
        assert(false);
    } else if ci > i {
        assert(st.names()[i] != st.names()[ci]);
        assert(false);
    }
}

/// After a registration under a fresh name, that name is dispatched to the
/// newly registered handler, and every name registered before still leads to
/// exactly the handler it led to before: names never capture one another.
pub proof fn lemma_registration_keeps_targets<A: CommandAction>(
    pre: HostState<A>,
    post: HostState<A>,
    handler: CommandHandler<A>,
)
    requires
        pre.wf(),
        post.wf(),
        !pre.contains_name(handler.spec_name()),
        post.spec_handlers() == pre.spec_handlers().push(handler),
    ensures
        post.contains_name(handler.spec_name()),
        post.index_of(handler.spec_name()) == pre.spec_handlers().len(),
        post.spec_handlers()[post.index_of(handler.spec_name())] == handler,
        forall|n: Seq<char>|
            pre.contains_name(n) ==> #[trigger] post.contains_name(n) && post.index_of(n)
                == pre.index_of(n) && post.spec_handlers()[post.index_of(n)]
                == pre.spec_handlers()[pre.index_of(n)],
{
    let len = pre.spec_handlers().len() as int;
    assert(post.names()[len] == handler.spec_name());
    assert(post.contains_name(handler.spec_name()));
    let ci = post.index_of(handler.spec_name());
    assert(post.names()[ci] == handler.spec_name());
    if ci < len {
        assert(pre.names()[ci] == post.names()[ci]);
        assert(pre.contains_name(handler.spec_name()));
    }
    assert forall|n: Seq<char>| pre.contains_name(n) implies #[trigger] post.contains_name(n)
        && post.index_of(n) == pre.index_of(n) && post.spec_handlers()[post.index_of(n)]
        == pre.spec_handlers()[pre.index_of(n)] by {
        let i = pre.index_of(n);
        assert(pre.names()[i] == n);
        assert(post.names()[i] == n);
        assert(post.contains_name(n));
        let j = post.index_of(n);
        assert(post.names()[j] == n);
        if j != i {
            if j == len {
                assert(handler.spec_name() == n);
                assert(pre.contains_name(handler.spec_name()));
            }
            assert(false);
        }
    }
}

/// Once the registry is empty — as it is after an unload — no name is
/// registered at all, so every invocation attempt is reported as an unknown
/// command rather than reaching a gone handler.
pub proof fn lemma_empty_registry_knows_no_name<A: CommandAction>(st: HostState<A>)
    requires
        st.spec_handlers().len() == 0,
    ensures
        forall|n: Seq<char>| !st.contains_name(n),
{
}

} // verus!

//! The command handler: a self-contained, movable value pairing a command
//! name with captured state and the behaviour that acts on it. The invoke
//! and destroy steps belong to one concrete captured-state type and travel
//! with the value as a unit, so a handler can cross between containers and
//! owners without ever splitting the pair.

use vstd::prelude::*;
use crate::abi::{FfiSafeSlice, FfiSafeStr, FfiSafeString};

verus! {

/// The texts seen through a run of borrowed argument views, in order.
pub open spec fn arg_texts<'a>(args: Seq<FfiSafeStr<'a>>) -> Seq<Seq<char>> {
    Seq::new(args.len(), |i: int| args[i]@)
}

/// Behaviour of one registrable command, implemented by the module side for
/// its own captured-state type. An invocation may read and update both the
/// action's own captured state and the module-shared state, and yields a
/// success flag plus an optional diagnostic for the host to print: the
/// protocol carries no structured error across the boundary.
pub trait CommandAction: Sized {
    /// Module-shared state every action of the module may touch.
    type Shared;

    /// What one invocation does, as a pure function of the captured state,
    /// the shared state and the argument texts: the new captured state, the
    /// new shared state, the success flag and the optional diagnostic.
    spec fn step(self, shared: Self::Shared, args: Seq<Seq<char>>) -> (
        Self,
        Self::Shared,
        bool,
        Option<Seq<char>>,
    );

    /// Executable invocation; behaves exactly as `step` says. No failure
    /// escapes it: every outcome is the boolean-plus-diagnostic protocol.
    fn invoke(&mut self, shared: &mut Self::Shared, args: &FfiSafeSlice<'_, FfiSafeStr<'_>>) -> (r:
        (bool, Option<String>))
        ensures
            ({
                let (a2, m2, ok, report) = old(self).step(*old(shared), arg_texts(args@));
                &&& *final(self) == a2
                &&& *final(shared) == m2
                &&& r.0 == ok
                &&& r.1.deep_view() == report
            }),
    ;
}

/// One registrable command as a single transferable value: the owned name
/// and the captured state with its behaviour. It moves, never shallow-copies,
/// so exactly one owner is ever responsible for destroying it.
pub struct CommandHandler<A> {
    name: FfiSafeString,
    action: A,
}

impl<A> CommandHandler<A> {
    /// The text of the command name.
    pub closed spec fn spec_name(self) -> Seq<char> {
        self.name@
    }

    /// The captured state held by the handler.
    pub closed spec fn spec_action(self) -> A {
        self.action
    }

    /// Builds a handler owning `name` and the captured state `action`.
    pub fn new(name: String, action: A) -> (h: Self)
        ensures
            h.spec_name() == name@,
            h.spec_action() == action,
    {
        CommandHandler { name: FfiSafeString::new(name), action }
    }

    /// Borrows the command name.
    pub fn name(&self) -> (r: &str)
        ensures
            r@ == self.spec_name(),
    {
        self.name.as_str()
    }

    /// The destroy step: consumes the handler, releases its name buffer and
    /// hands the captured state back to the caller. Taking `self` by value
    /// makes a second destruction of the same handler impossible.
    pub fn into_action(self) -> (a: A)
        ensures
            a == self.spec_action(),
    {
        self.action
    }
}

impl<A: CommandAction> CommandHandler<A> {
    /// Invokes the handler on the given arguments: the captured and shared
    /// state advance exactly as the action's `step` says, the name is kept,
    /// and the result is the success flag with the diagnostic to print.
    pub fn call(&mut self, shared: &mut A::Shared, args: &Vec<String>) -> (r: (
        bool,
        Option<String>,
    ))
        ensures
            ({
                let (a2, m2, ok, report) = old(self).spec_action().step(
                    *old(shared),
                    args.deep_view(),
                );
                &&& final(self).spec_name() == old(self).spec_name()
                &&& final(self).spec_action() == a2
                &&& *final(shared) == m2
                &&& r.0 == ok
                &&& r.1.deep_view() == report
            }),
    {
        // Transient borrowed views of the arguments, valid only for the
        // duration of this call and never stored beyond it.
        let mut views: Vec<FfiSafeStr<'_>> = Vec::with_capacity(args.len());
        let mut i: usize = 0;
        while i < args.len()
            invariant
                i <= args@.len(),
                views@.len() == i,
                forall|k: int| 0 <= k < i ==> #[trigger] views@[k]@ == args@[k]@,
            decreases args@.len() - i,
        {
            views.push(FfiSafeStr::new(args[i].as_str()));
            i = i + 1;
        }
        let slice = FfiSafeSlice::new(views.as_slice());
        let r = self.action.invoke(shared, &slice);
        proof {
            assert(args.deep_view() =~= arg_texts(slice@));
        }
        r
    }
}

} // verus!

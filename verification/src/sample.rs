//! A small module-side consumer of the protocol: a counter shared between a
//! custom prompt and a `reset-counter` command, plus a `count` command that
//! reports how many arguments it was given. The shared counter is owned by
//! the module record, never a process-wide global, so two module instances
//! could never share it by accident.

use vstd::prelude::*;
use vstd::string::*;
use crate::abi::{FfiSafeSlice, FfiSafeStr};
use crate::handler::{CommandAction, CommandHandler};
use crate::host::{HostState, PromptSource};
use crate::render::{dec_digits, decimal_string};

verus! {

/// The sample module's shared state: one counter, shown by its prompt and
/// reset by its `reset-counter` command.
pub struct SampleShared {
    counter: u64,
}

impl SampleShared {
    /// The counter's current value.
    pub closed spec fn spec_counter(self) -> u64 {
        self.counter
    }

    /// Fresh shared state with the counter at zero.
    pub fn new() -> (r: Self)
        ensures
            r.spec_counter() == 0,
    {
        SampleShared { counter: 0 }
    }

    /// Reads the counter.
    pub fn counter(&self) -> (r: u64)
        ensures
            r == self.spec_counter(),
    {
        self.counter
    }
}

impl PromptSource for SampleShared {
    /// The prompt shows the counter followed by ` $ `, and each rendering
    /// steps the counter, wrapping at its largest value.
    closed spec fn rendered(self) -> (Self, Seq<char>) {
        (
            SampleShared {
                counter: if self.counter == u64::MAX {
                    0
                } else {
                    (self.counter + 1) as u64
                },
            },
            dec_digits(self.counter as nat) + " $ "@,
        )
    }

    fn render(&mut self) -> (r: String) {
        let text = decimal_string(self.counter).concat(" $ ");
        self.counter = if self.counter == u64::MAX {
            0
        } else {
            self.counter + 1
        };
        text
    }
}

/// The sample module's two commands.
#[derive(Clone, Copy, PartialEq, Eq, Structural, Debug)]
pub enum SampleCommand {
    /// Reports how many arguments it received; always succeeds.
    Count,
    /// Sets the shared counter back to zero; always succeeds.
    ResetCounter,
}

impl CommandAction for SampleCommand {
    type Shared = SampleShared;

    closed spec fn step(self, shared: SampleShared, args: Seq<Seq<char>>) -> (
        Self,
        SampleShared,
        bool,
        Option<Seq<char>>,
    ) {
        match self {
            SampleCommand::Count => (
                self,
                shared,
                true,
                Some("you provided "@ + dec_digits(args.len()) + " arguments"@),
            ),
            SampleCommand::ResetCounter => (self, SampleShared { counter: 0 }, true, None),
        }
    }

    fn invoke(&mut self, shared: &mut SampleShared, args: &FfiSafeSlice<'_, FfiSafeStr<'_>>) -> (r:
        (bool, Option<String>)) {
        match *self {
            SampleCommand::Count => {
                let digits = decimal_string(args.as_slice().len() as u64);
                let msg = String::from_str("you provided ").concat(digits.as_str()).concat(
                    " arguments",
                );
                (true, Some(msg))
            },
            SampleCommand::ResetCounter => {
                shared.counter = 0;
                (true, None)
            },
        }
    }
}

/// What the sample module does on load: it registers `reset-counter` and
/// `count`, destroys any handler the host hands back as rejected, and says
/// whether both registrations were accepted. On a host that knows neither
/// name yet, both land in the registry, in this order, after everything
/// already there.
pub fn register_sample_commands(host: &mut HostState<SampleCommand>) -> (ok: bool)
    requires
        old(host).wf(),
        old(host).loaded(),
    ensures
        final(host).wf(),
        final(host).spec_module() == old(host).spec_module(),
        !old(host).contains_name("reset-counter"@) && !old(host).contains_name("count"@) ==> ({
            let len = old(host).spec_handlers().len() as int;
            &&& ok
            &&& final(host).spec_handlers().len() == len + 2
            &&& final(host).spec_handlers()[len].spec_name() == "reset-counter"@
            &&& final(host).spec_handlers()[len].spec_action() == SampleCommand::ResetCounter
            &&& final(host).spec_handlers()[len + 1].spec_name() == "count"@
            &&& final(host).spec_handlers()[len + 1].spec_action() == SampleCommand::Count
            &&& forall|j: int|
                0 <= j < len ==> final(host).spec_handlers()[j] == old(host).spec_handlers()[j]
        }),
{
    proof {
        reveal_strlit("reset-counter");
        reveal_strlit("count");
        assert("reset-counter"@.len() != "count"@.len());
        assert("reset-counter"@ != "count"@);
    }
    let h1 = CommandHandler::new(String::from_str("reset-counter"), SampleCommand::ResetCounter);
    let ok1 = match host.register_command(h1) {
        None => true,
        Some(rejected) => {
            let _ = rejected.into_action();
            false
        },
    };
    proof {
        if !old(host).contains_name("reset-counter"@) && !old(host).contains_name("count"@) {
            let len = old(host).spec_handlers().len() as int;
            assert forall|i: int|
                0 <= i < host.names().len() implies host.names()[i] != "count"@ by {
                if i < len {
                    assert(host.names()[i] == old(host).names()[i]);
                }
            }
        }
    }
    let h2 = CommandHandler::new(String::from_str("count"), SampleCommand::Count);
    let ok2 = match host.register_command(h2) {
        None => true,
        Some(rejected) => {
            let _ = rejected.into_action();
            false
        },
    };
    ok1 && ok2
}

} // verus!

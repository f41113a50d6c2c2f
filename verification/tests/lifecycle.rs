use plugin_sdk::errors::{ErrorKind, HostError};
use plugin_sdk::handler::CommandHandler;
use plugin_sdk::host::{HostState, LoadPlan};
use plugin_sdk::sample::{register_sample_commands, SampleCommand, SampleShared};

fn loaded_host() -> HostState<SampleCommand> {
    let mut host = HostState::new();
    host.complete_load(String::from("./sample.so"), SampleShared::new(), true);
    host
}

fn strings(words: &[&str]) -> Vec<String> {
    words.iter().map(|w| w.to_string()).collect()
}

#[test]
fn distinct_names_dispatch_to_their_own_handlers() {
    let mut host = loaded_host();
    assert!(host
        .register_command(CommandHandler::new(String::from("count"), SampleCommand::Count))
        .is_none());
    assert!(host
        .register_command(CommandHandler::new(
            String::from("reset-counter"),
            SampleCommand::ResetCounter,
        ))
        .is_none());

    // `count` answers with its own report; `reset-counter` stays silent.
    let (ok, report) = host.dispatch("count", &strings(&["x"])).unwrap();
    assert!(ok);
    assert_eq!(report.as_deref(), Some("you provided 1 arguments"));

    let (ok, report) = host.dispatch("reset-counter", &Vec::new()).unwrap();
    assert!(ok);
    assert!(report.is_none());
}

#[test]
fn duplicate_registration_is_rejected_and_first_stays() {
    let mut host = loaded_host();
    assert!(host
        .register_command(CommandHandler::new(String::from("count"), SampleCommand::Count))
        .is_none());

    // Second handler under the same name comes back whole: the rejecting
    // side still owns it and runs its destroy step exactly once.
    let rejected = host
        .register_command(CommandHandler::new(
            String::from("count"),
            SampleCommand::ResetCounter,
        ))
        .unwrap();
    assert_eq!(rejected.name(), "count");
    assert_eq!(rejected.into_action(), SampleCommand::ResetCounter);

    // The first registration still answers.
    assert_eq!(host.command_names(), strings(&["count"]));
    let (ok, report) = host.dispatch("count", &strings(&["a", "b"])).unwrap();
    assert!(ok);
    assert_eq!(report.as_deref(), Some("you provided 2 arguments"));
}

#[test]
fn unload_clears_commands_and_prompt() {
    let mut host = loaded_host();
    assert!(register_sample_commands(&mut host));
    assert_eq!(host.command_names(), strings(&["reset-counter", "count"]));

    let path = host.unload().unwrap();
    assert_eq!(path, "./sample.so");
    assert!(!host.is_loaded());
    assert!(host.command_names().is_empty());

    // Post-unload invocation attempts find nothing: the caller reports an
    // unknown command instead of reaching a gone handler.
    assert!(host.dispatch("count", &Vec::new()).is_none());
    assert!(host.dispatch("reset-counter", &Vec::new()).is_none());

    // The custom prompt is gone with the module.
    assert_eq!(host.render_prompt(), "> ");
}

#[test]
fn destroy_step_runs_once_across_relocations() {
    let handler = CommandHandler::new(String::from("mover"), SampleCommand::Count);

    // Relocate the handler between containers; it travels as a unit.
    let mut first: Vec<CommandHandler<SampleCommand>> = Vec::new();
    first.push(handler);
    let moved = first.pop().unwrap();
    let mut second: Vec<CommandHandler<SampleCommand>> = Vec::new();
    second.push(moved);
    let moved_again = second.pop().unwrap();

    assert_eq!(moved_again.name(), "mover");
    // The destroy step consumes the handler and hands the captured state
    // back exactly once; the type system forbids a second run.
    assert_eq!(moved_again.into_action(), SampleCommand::Count);
}

#[test]
fn count_reports_number_of_arguments() {
    let mut host = loaded_host();
    assert!(register_sample_commands(&mut host));
    let (ok, report) = host.dispatch("count", &strings(&["a", "b", "c"])).unwrap();
    assert!(ok);
    assert_eq!(report.as_deref(), Some("you provided 3 arguments"));
}

#[test]
fn reset_counter_resets_the_prompt() {
    let mut host = loaded_host();
    assert!(register_sample_commands(&mut host));

    // Each rendering shows the counter, then steps it.
    assert_eq!(host.render_prompt(), "0 $ ");
    assert_eq!(host.render_prompt(), "1 $ ");
    assert_eq!(host.render_prompt(), "2 $ ");

    let (ok, report) = host.dispatch("reset-counter", &Vec::new()).unwrap();
    assert!(ok);
    assert!(report.is_none());
    assert_eq!(host.render_prompt(), "0 $ ");
}

#[test]
fn failed_load_leaves_nothing_loaded() {
    let mut host: HostState<SampleCommand> = HostState::new();

    // The host agrees to open the invalid path; opening it fails outside,
    // so the load is never completed and no module is marked loaded.
    match host.plan_load(&strings(&["./missing.so"])) {
        LoadPlan::Open(path) => assert_eq!(path, "./missing.so"),
        _ => panic!("expected a decision to open the module"),
    }
    assert!(!host.is_loaded());

    // A later load with a good path still succeeds.
    match host.plan_load(&strings(&["./sample.so"])) {
        LoadPlan::Open(path) => {
            host.complete_load(path, SampleShared::new(), false);
        }
        _ => panic!("expected a decision to open the module"),
    }
    assert!(host.is_loaded());
    assert_eq!(host.render_prompt(), "> ");
}

#[test]
fn second_load_is_turned_down() {
    let mut host = loaded_host();
    assert!(matches!(
        host.plan_load(&strings(&["./other.so"])),
        LoadPlan::AlreadyLoaded
    ));
    assert!(matches!(host.plan_load(&Vec::new()), LoadPlan::AlreadyLoaded));
}

#[test]
fn load_without_path_is_missing_path() {
    let host: HostState<SampleCommand> = HostState::new();
    assert!(matches!(host.plan_load(&Vec::new()), LoadPlan::MissingPath));
    assert!(matches!(
        host.plan_load(&strings(&["a", "b"])),
        LoadPlan::MissingPath
    ));
}

#[test]
fn unload_with_nothing_loaded_reports_and_continues() {
    let mut host: HostState<SampleCommand> = HostState::new();
    assert!(host.unload().is_none());

    // The loop goes on: the host still answers.
    assert!(host.dispatch("count", &Vec::new()).is_none());
    assert_eq!(host.render_prompt(), "> ");
    assert!(host.unload().is_none());
}

#[test]
fn sample_registration_rejected_on_taken_name() {
    let mut host = loaded_host();
    assert!(host
        .register_command(CommandHandler::new(String::from("count"), SampleCommand::Count))
        .is_none());
    // One of the two sample names is taken, so the sample reports failure,
    // while the fresh name still lands.
    assert!(!register_sample_commands(&mut host));
    assert_eq!(host.command_names(), strings(&["count", "reset-counter"]));
}

#[test]
fn help_listing_without_plugin_commands() {
    let host: HostState<SampleCommand> = HostState::new();
    assert_eq!(
        host.help_lines(),
        strings(&[
            "supported commands:",
            "   help",
            "   echo",
            "   exit",
            "   load-plugin",
            "   unload-all-plugins",
        ])
    );
}

#[test]
fn help_listing_with_plugin_commands() {
    let mut host = loaded_host();
    assert!(register_sample_commands(&mut host));
    assert_eq!(
        host.help_lines(),
        strings(&[
            "supported commands:",
            "   help",
            "   echo",
            "   exit",
            "   load-plugin",
            "   unload-all-plugins",
            "commands from plugins:",
            "   reset-counter",
            "   count",
        ])
    );
}

#[test]
fn host_error_carries_kind_and_message() {
    let e = HostError::new(ErrorKind::Load, String::from("no such file"));
    assert_eq!(e.kind(), ErrorKind::Load);
    assert_eq!(e.message(), "no such file");

    let e = HostError::new(ErrorKind::Symbol, String::from("symbol absent"));
    assert_eq!(e.kind(), ErrorKind::Symbol);

    let e = HostError::new(ErrorKind::Unload, String::from("busy"));
    assert_eq!(e.kind(), ErrorKind::Unload);
}

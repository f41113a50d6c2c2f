use plugin_sdk::host::{interpret, Directive};
use plugin_sdk::parse::{parse_command, split_line, str_eq};
use plugin_sdk::render::{decimal_string, echo_line};

fn strings(words: &[&str]) -> Vec<String> {
    words.iter().map(|w| w.to_string()).collect()
}

#[test]
fn parse_command_splits_words() {
    let (cmd, args) = parse_command("count a b c").unwrap();
    assert_eq!(cmd, "count");
    assert_eq!(args, strings(&["a", "b", "c"]));
}

#[test]
fn parse_command_trims_and_collapses_whitespace() {
    let (cmd, args) = parse_command("  echo \t one \r\n two  ").unwrap();
    assert_eq!(cmd, "echo");
    assert_eq!(args, strings(&["one", "two"]));
}

#[test]
fn parse_command_empty_line() {
    assert!(parse_command("").is_none());
    assert!(parse_command("   \t \n").is_none());
}

#[test]
fn split_line_keeps_order() {
    assert_eq!(split_line("one two  three"), strings(&["one", "two", "three"]));
    assert_eq!(split_line("solo"), strings(&["solo"]));
}

#[test]
fn str_eq_compares_text() {
    assert!(str_eq("same", "same"));
    assert!(!str_eq("same", "other"));
    assert!(str_eq("", ""));
}

#[test]
fn interpret_builtins() {
    assert!(matches!(interpret("help"), Directive::Help));
    assert!(matches!(interpret("exit"), Directive::Exit));
    assert!(matches!(interpret("unload-all-plugins"), Directive::UnloadAll));
    assert!(matches!(interpret("  \t "), Directive::Blank));
}

#[test]
fn interpret_echo_carries_arguments() {
    match interpret("echo hello world") {
        Directive::Echo(args) => assert_eq!(args, strings(&["hello", "world"])),
        _ => panic!("expected an echo directive"),
    }
}

#[test]
fn interpret_load_plugin_carries_arguments() {
    match interpret("load-plugin ./mod.so") {
        Directive::LoadPlugin(args) => assert_eq!(args, strings(&["./mod.so"])),
        _ => panic!("expected a load directive"),
    }
}

#[test]
fn interpret_unknown_word_is_plugin_command() {
    match interpret("count a b c") {
        Directive::Plugin(name, args) => {
            assert_eq!(name, "count");
            assert_eq!(args, strings(&["a", "b", "c"]));
        }
        _ => panic!("expected a plugin directive"),
    }
}

#[test]
fn echo_line_joins_with_single_spaces() {
    assert_eq!(echo_line(&strings(&["a", "b", "c"])), "a b c");
    assert_eq!(echo_line(&strings(&["solo"])), "solo");
    assert_eq!(echo_line(&Vec::new()), "");
}

#[test]
fn decimal_string_exact_values() {
    assert_eq!(decimal_string(0), "0");
    assert_eq!(decimal_string(7), "7");
    assert_eq!(decimal_string(30), "30");
    assert_eq!(decimal_string(12345), "12345");
    assert_eq!(decimal_string(u64::MAX), "18446744073709551615");
}

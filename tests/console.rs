use yolo::console::{commands, interpret_line, trimmed_len, ConsoleCommand};
use yolo::control::ControlSignal;

#[test]
fn known_words_map_to_signals() {
    assert_eq!(interpret_line("pause"), ConsoleCommand::Signal(ControlSignal::Pause));
    assert_eq!(interpret_line("resume\n"), ConsoleCommand::Signal(ControlSignal::Resume));
    assert_eq!(interpret_line("exit\r\n"), ConsoleCommand::Signal(ControlSignal::Exit));
    assert_eq!(interpret_line("help\n"), ConsoleCommand::Help);
}

#[test]
fn unknown_command_prints_message_and_list() {
    let c = interpret_line("foo\n");
    assert_eq!(c, ConsoleCommand::Unknown);
    assert_eq!(c.signal(), None);
    assert!(!c.ends_console());
    assert_eq!(c.reply(), vec!["Unknown command", "pause", "resume", "exit"]);
}

#[test]
fn help_prints_the_three_commands() {
    assert_eq!(ConsoleCommand::Help.reply(), vec!["pause", "resume", "exit"]);
    assert_eq!(commands(), vec!["pause", "resume", "exit"]);
    assert_eq!(ConsoleCommand::Help.signal(), None);
}

#[test]
fn only_exit_ends_the_console() {
    let exit = interpret_line("exit\n");
    assert!(exit.ends_console());
    assert_eq!(exit.signal(), Some(ControlSignal::Exit));
    assert!(!interpret_line("pause\n").ends_console());
    assert!(interpret_line("pause\n").reply().is_empty());
}

#[test]
fn empty_line_is_blank() {
    assert_eq!(interpret_line(""), ConsoleCommand::Blank);
    assert_eq!(interpret_line("\r\n"), ConsoleCommand::Blank);
    assert!(ConsoleCommand::Blank.reply().is_empty());
}

#[test]
fn words_must_match_exactly() {
    assert_eq!(interpret_line("Pause\n"), ConsoleCommand::Unknown);
    assert_eq!(interpret_line(" pause"), ConsoleCommand::Unknown);
    assert_eq!(interpret_line("pauses"), ConsoleCommand::Unknown);
    assert_eq!(interpret_line("paus"), ConsoleCommand::Unknown);
    assert_eq!(interpret_line("exit now"), ConsoleCommand::Unknown);
}

#[test]
fn trimming_removes_only_trailing_line_ends() {
    assert_eq!(trimmed_len(b"pause\r\n\n"), 5);
    assert_eq!(trimmed_len(b"\npause"), 6);
    assert_eq!(trimmed_len(b""), 0);
}

use nri::cli::{cli_line, CliAction};
use nri::comms::Power;

#[test]
fn shell_escape() {
    assert_eq!(cli_line("  !ls -l  "), vec![CliAction::Shell("ls -l".to_string())]);
}

#[test]
fn commands_separated_by_semicolons() {
    assert_eq!(
        cli_line("sleep 100; start a b;stop c"),
        vec![
            CliAction::Sleep(100),
            CliAction::Start("a".to_string()),
            CliAction::Start("b".to_string()),
            CliAction::Stop("c".to_string()),
        ]
    );
}

#[test]
fn sleep_values() {
    assert_eq!(cli_line("sleep"), vec![CliAction::NoSleep]);
    assert_eq!(cli_line("sleep x"), vec![CliAction::BadSleep]);
    assert_eq!(cli_line("sleep 4294967295"), vec![CliAction::Sleep(4294967295)]);
    assert_eq!(cli_line("sleep 4294967296"), vec![CliAction::BadSleep]);
}

#[test]
fn simple_commands() {
    assert_eq!(
        cli_line("status;quit;panic;reboot;poweroff;websend;foo"),
        vec![
            CliAction::Status,
            CliAction::Quit,
            CliAction::Panic,
            CliAction::Power(Power::Reboot),
            CliAction::Power(Power::PowerOff),
            CliAction::WebSend,
            CliAction::Unknown,
        ]
    );
}

#[test]
fn empty_commands_do_nothing() {
    assert_eq!(cli_line(""), vec![]);
    assert_eq!(cli_line(" ; ;"), vec![]);
    assert_eq!(cli_line("start"), vec![]);
}

#[test]
fn double_spaces_make_empty_words() {
    assert_eq!(
        cli_line("start  a"),
        vec![CliAction::Start("".to_string()), CliAction::Start("a".to_string())]
    );
}

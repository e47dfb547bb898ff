use ncspot_controller::cli::Commands;
use ncspot_controller::control::execute_command;
use ncspot_controller::sender::{interpret_reply, wire_line, ReplyOutcome, SendError};

#[test]
fn every_subcommand_maps_to_its_keyword() {
    assert_eq!(execute_command(&Commands::Play), "play");
    assert_eq!(execute_command(&Commands::Pause), "pause");
    assert_eq!(execute_command(&Commands::Playpause), "playpause");
    assert_eq!(execute_command(&Commands::Next), "next");
    assert_eq!(execute_command(&Commands::Previous), "previous");
    assert_eq!(execute_command(&Commands::Stop), "stop");
}

#[test]
fn raw_commands_pass_through_unchanged() {
    let cmd = Commands::Raw { command: "seek +10".to_string() };
    assert_eq!(execute_command(&cmd), "seek +10");
}

#[test]
fn wire_line_appends_one_newline() {
    assert_eq!(wire_line("pause"), "pause\n");
    assert_eq!(wire_line(""), "\n");
}

#[test]
fn one_reply_line_is_success() {
    let outcome = ReplyOutcome::Line("status: paused".to_string());
    assert_eq!(interpret_reply(&outcome), Ok(()));
}

#[test]
fn silent_close_is_no_reply() {
    assert_eq!(interpret_reply(&ReplyOutcome::Closed), Err(SendError::NoReply));
}

#[test]
fn failed_read_is_read_failed() {
    assert_eq!(interpret_reply(&ReplyOutcome::Failed), Err(SendError::ReadFailed));
}

#[test]
fn send_errors_describe_themselves() {
    assert_eq!(
        SendError::NoReply.describe(),
        "the player closed the connection without replying"
    );
    assert_eq!(SendError::ConnectFailed.describe(), "failed to connect to the control socket");
}

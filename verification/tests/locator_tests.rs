use ncspot_controller::locator::{socket_path_from_info, LocatorError};

#[test]
fn runtime_path_line_resolves_to_socket_path() {
    let output = "USER_RUNTIME_PATH /run/user/501/ncspot\n";
    assert_eq!(
        socket_path_from_info(output).unwrap(),
        "/run/user/501/ncspot/ncspot.sock"
    );
}

#[test]
fn key_is_found_among_other_lines() {
    let output = "VERSION 1.0.0\nUSER_CONFIGURATION_PATH /home/u/.config/ncspot\nUSER_RUNTIME_PATH /run/user/501/ncspot\nCACHE /tmp\n";
    assert_eq!(
        socket_path_from_info(output).unwrap(),
        "/run/user/501/ncspot/ncspot.sock"
    );
}

#[test]
fn output_without_the_key_fails() {
    let output = "VERSION 1.0.0\nCACHE /tmp\n";
    assert_eq!(socket_path_from_info(output).unwrap_err(), LocatorError::KeyNotFound);
    assert_eq!(socket_path_from_info("").unwrap_err(), LocatorError::KeyNotFound);
}

#[test]
fn key_line_without_a_directory_is_skipped() {
    let output = "USER_RUNTIME_PATH\nUSER_RUNTIME_PATH /run/user/9/ncspot\n";
    assert_eq!(
        socket_path_from_info(output).unwrap(),
        "/run/user/9/ncspot/ncspot.sock"
    );
}

#[test]
fn tabs_separate_tokens_too() {
    let output = "USER_RUNTIME_PATH\t/run/user/7/ncspot\n";
    assert_eq!(
        socket_path_from_info(output).unwrap(),
        "/run/user/7/ncspot/ncspot.sock"
    );
}

#[test]
fn missing_trailing_newline_still_resolves() {
    let output = "USER_RUNTIME_PATH /run/user/3/ncspot";
    assert_eq!(
        socket_path_from_info(output).unwrap(),
        "/run/user/3/ncspot/ncspot.sock"
    );
}

#[test]
fn the_first_matching_line_wins() {
    let output = "USER_RUNTIME_PATH /first\nUSER_RUNTIME_PATH /second\n";
    assert_eq!(socket_path_from_info(output).unwrap(), "/first/ncspot.sock");
}

#[test]
fn locator_errors_describe_themselves() {
    assert_eq!(
        LocatorError::KeyNotFound.describe(),
        "no USER_RUNTIME_PATH line in the player's info output"
    );
    assert_eq!(
        LocatorError::CommandFailed.describe(),
        "the player's info command exited with an error"
    );
}

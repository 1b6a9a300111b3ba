use miniview::Source;
use miniview::cli::InputMode;
use miniview::cli::cli_config;
use miniview::cli::determine_source;
use miniview::cli::stop_after;
use miniview::errors::MiniViewError;

#[test]
fn path_flag_selects_its_path() {
    let mode = determine_source(true, Some(String::from("plant.jpg")), false, false, false, None);
    assert_eq!(mode, Ok(InputMode::Path(String::from("plant.jpg"))));
}

#[test]
fn path_flag_without_value_is_an_empty_path() {
    let mode = determine_source(true, None, false, false, false, None);
    assert_eq!(mode, Err(MiniViewError::EmptyInputPath));
}

#[test]
fn stdin_path_flag_selects_reading_a_path() {
    let mode = determine_source(false, None, true, false, false, None);
    assert_eq!(mode, Ok(InputMode::StdinPath));
}

#[test]
fn stdin_bytes_flag_selects_reading_bytes() {
    let mode = determine_source(false, None, false, true, false, None);
    assert_eq!(mode, Ok(InputMode::StdinBytes));
}

#[test]
fn positional_path_selects_its_path() {
    let mode = determine_source(false, None, false, false, true, Some(String::from("a.png")));
    assert_eq!(mode, Ok(InputMode::Path(String::from("a.png"))));
}

#[test]
fn no_selection_determines_no_input_mode() {
    let mode = determine_source(false, None, false, false, false, None);
    assert_eq!(mode, Err(MiniViewError::CliUnableToDetermineInputMode));
}

#[test]
fn ambiguous_selection_determines_no_input_mode() {
    let mode = determine_source(true, Some(String::from("a.png")), false, true, false, None);
    assert_eq!(mode, Err(MiniViewError::CliUnableToDetermineInputMode));
    let all = determine_source(true, None, true, true, true, None);
    assert_eq!(all, Err(MiniViewError::CliUnableToDetermineInputMode));
}

#[test]
fn cli_config_takes_the_flags_over() {
    let config = cli_config(Source::ByPath(String::from("plant.jpg")), true, false, None);
    assert_eq!(*config.source(), Source::ByPath(String::from("plant.jpg")));
    assert!(config.fullscreen());
    assert!(!config.resizable_window());
    assert!(config.exit_on_esc());
    assert_eq!(config.window_name(), "miniview");
}

#[test]
fn close_after_deadline_forces_continuous_polling() {
    let config = cli_config(Source::StdinBytes, false, false, Some(100));
    assert!(!config.lazy_window());
}

#[test]
fn stop_after_fires_exactly_at_the_deadline() {
    assert!(!stop_after(0, 100));
    assert!(!stop_after(99, 100));
    assert!(stop_after(100, 100));
    assert!(stop_after(150, 100));
}

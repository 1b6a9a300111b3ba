//! Decisions behind the command-line surface.
//!
//! Parsing the command line and reading the standard input happen outside
//! this crate; what arrives here is which flags were given and with which
//! values. This module decides what that selection means: which input mode it
//! picks (or why it picks none), how the remaining options assemble into a
//! [`Config`], and when a configured close-after deadline has passed.

use vstd::prelude::*;

use crate::Source;
use crate::config::Config;
use crate::config::ConfigBuilder;
use crate::errors::MiniViewError;

verus! {

/// How the image to show is to be obtained, as the command line selected it:
/// from a path given directly, from a path to be read off the standard input,
/// or from encoded bytes to be read off the standard input.
#[derive(Debug, Clone, PartialEq, Eq)]
pub enum InputMode {
    /// Load the image from this path.
    Path(String),
    /// Read a path from the standard input, then load the image from it.
    StdinPath,
    /// Read an encoded image from the standard input.
    StdinBytes,
}

/// Whether exactly one of the four source selectors was given: the path
/// option, the read-path-from-stdin flag, the read-bytes-from-stdin flag, and
/// the positional path.
pub open spec fn exactly_one_selected(
    from_path: bool,
    from_stdin_path: bool,
    from_stdin_bytes: bool,
    positional_path: bool,
) -> bool {
    ||| (from_path && !from_stdin_path && !from_stdin_bytes && !positional_path)
    ||| (!from_path && from_stdin_path && !from_stdin_bytes && !positional_path)
    ||| (!from_path && !from_stdin_path && from_stdin_bytes && !positional_path)
    ||| (!from_path && !from_stdin_path && !from_stdin_bytes && positional_path)
}

/// Determines the input mode from the command-line selection: each `*` flag
/// says whether the corresponding selector was given, and the two values
/// carry the path a selector was given with. Exactly one selector must be
/// given — an ambiguous or empty selection determines no mode — and a path
/// selector given without a value is rejected as an empty input path.
pub fn determine_source(
    from_path: bool,
    from_path_value: Option<String>,
    from_stdin_path: bool,
    from_stdin_bytes: bool,
    positional_path: bool,
    positional_path_value: Option<String>,
) -> (mode: Result<InputMode, MiniViewError>)
    ensures
        !exactly_one_selected(from_path, from_stdin_path, from_stdin_bytes, positional_path)
            ==> mode == Err::<InputMode, MiniViewError>(
            MiniViewError::CliUnableToDetermineInputMode,
        ),
        (from_path && !from_stdin_path && !from_stdin_bytes && !positional_path) ==> mode
            == (match from_path_value {
            Some(path) => Ok::<InputMode, MiniViewError>(InputMode::Path(path)),
            None => Err::<InputMode, MiniViewError>(MiniViewError::EmptyInputPath),
        }),
        (!from_path && from_stdin_path && !from_stdin_bytes && !positional_path) ==> mode == Ok::<
            InputMode,
            MiniViewError,
        >(InputMode::StdinPath),
        (!from_path && !from_stdin_path && from_stdin_bytes && !positional_path) ==> mode == Ok::<
            InputMode,
            MiniViewError,
        >(InputMode::StdinBytes),
        (!from_path && !from_stdin_path && !from_stdin_bytes && positional_path) ==> mode
            == (match positional_path_value {
            Some(path) => Ok::<InputMode, MiniViewError>(InputMode::Path(path)),
            None => Err::<InputMode, MiniViewError>(MiniViewError::EmptyInputPath),
        }),
{
    match (from_path, from_stdin_path, from_stdin_bytes, positional_path) {
        (true, false, false, false) => match from_path_value {
            Some(path) => Ok(InputMode::Path(path)),
            None => Err(MiniViewError::EmptyInputPath),
        },
        (false, true, false, false) => Ok(InputMode::StdinPath),
        (false, false, true, false) => Ok(InputMode::StdinBytes),
        (false, false, false, true) => match positional_path_value {
            Some(path) => Ok(InputMode::Path(path)),
            None => Err(MiniViewError::EmptyInputPath),
        },
        _ => Err(MiniViewError::CliUnableToDetermineInputMode),
    }
}

/// Assembles the configuration the command-line surface asked for. The
/// fullscreen and resizability flags are taken over as given; a close-after
/// deadline forces continuous (non-lazy) polling, so that the deadline is
/// observed within one loop iteration rather than only at the next native
/// event; and the remaining fields keep their defaults.
pub fn cli_config(
    source: Source,
    fullscreen: bool,
    resizable: bool,
    close_after_ms: Option<u64>,
) -> (config: Config)
    ensures
        config.source == source,
        config.fullscreen == fullscreen,
        config.resizable_window == resizable,
        close_after_ms is Some ==> !config.lazy_window,
        !config.lazy_window,
        config.exit_on_esc,
        config.window_name@ == "miniview"@,
{
    let mut builder = ConfigBuilder::new(source).set_fullscreen(fullscreen)
        .allow_resizable_window(resizable);
    if close_after_ms.is_some() {
        builder = builder.set_lazy_window(false);
    }
    builder.build()
}

/// Whether the time passed since the view was shown has reached the
/// configured close-after deadline. Evaluated on each loop iteration, this is
/// the auto-close predicate of the command-line surface.
pub fn stop_after(elapsed_ms: u64, close_after_ms: u64) -> (stop: bool)
    ensures
        stop == (elapsed_ms >= close_after_ms),
{
    elapsed_ms >= close_after_ms
}

} // verus!

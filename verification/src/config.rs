//! In order to display the miniview window, a configuration which defines how
//! the view should be presented is required. The [`Config`] value is immutable
//! once built; it is assembled through the [`ConfigBuilder`], which starts from
//! documented defaults and lets each field be overridden independently.
//!
//! Construction is pure value assembly: building a configuration performs no
//! input or output, and `build` is total.

use vstd::prelude::*;

use crate::Source;

verus! {

/// Configuration provided to a miniview window controlling instance, enabling
/// different program behaviours.
///
/// The fields are public so that contracts throughout the crate can speak of
/// them directly; the getter methods mirror them for conventional use.
pub struct Config {
    /// Where the image to be shown comes from.
    pub source: Source,
    /// Whether the window opens in fullscreen mode. Default: false.
    pub fullscreen: bool,
    /// Whether the window may be resized. Default: false. Fullscreen mode
    /// implies resizability regardless of this field; see
    /// [`Config::effective_resizable`].
    pub resizable_window: bool,
    /// Whether the window polls for events lazily (blocking until the next
    /// native event) instead of continuously. Default: false.
    pub lazy_window: bool,
    /// Whether pressing the escape key closes the window. Default: true.
    pub exit_on_esc: bool,
    /// Title of the window. Default: "miniview".
    pub window_name: &'static str,
}

impl Config {
    /// Source of the image.
    pub fn source(&self) -> (src: &Source)
        ensures
            *src == self.source,
    {
        &self.source
    }

    /// Whether the window should open in fullscreen mode or not.
    pub fn fullscreen(&self) -> (on: bool)
        ensures
            on == self.fullscreen,
    {
        self.fullscreen
    }

    /// Whether the window should be resizable or not.
    ///
    /// If fullscreen mode is active for the window, resizability is implied
    /// whatever this field holds; [`Config::effective_resizable`] accounts for
    /// that.
    pub fn resizable_window(&self) -> (on: bool)
        ensures
            on == self.resizable_window,
    {
        self.resizable_window
    }

    /// Whether the window continuously or lazily checks for input events.
    ///
    /// Note: if this is set to true, a close signal sent to the window is only
    /// observed once some native event wakes the blocked poll.
    pub fn lazy_window(&self) -> (on: bool)
        ensures
            on == self.lazy_window,
    {
        self.lazy_window
    }

    /// Whether pressing the escape key closes the window.
    pub fn exit_on_esc(&self) -> (on: bool)
        ensures
            on == self.exit_on_esc,
    {
        self.exit_on_esc
    }

    /// Title of the window; useful when trying to capture the window from
    /// another program.
    pub fn window_name(&self) -> (name: &str)
        ensures
            name@ == self.window_name@,
    {
        self.window_name
    }

    /// Whether the window must be created resizable: requested resizability,
    /// or fullscreen mode, which implies it — without resizability the window
    /// would not enter fullscreen mode.
    pub fn effective_resizable(&self) -> (on: bool)
        ensures
            on == (self.fullscreen || self.resizable_window),
    {
        self.fullscreen || self.resizable_window
    }
}

/// Builder to conveniently create a miniview [`Config`].
pub struct ConfigBuilder {
    /// The configuration assembled so far.
    pub config: Config,
}

impl ConfigBuilder {
    /// Creates a builder from the provided [`Source`], with every other field
    /// at its default: windowed rather than fullscreen, not resizable,
    /// continuous (non-lazy) polling, escape key closing the window, and the
    /// window titled "miniview".
    pub fn new(source: Source) -> (builder: Self)
        ensures
            builder.config.source == source,
            !builder.config.fullscreen,
            !builder.config.resizable_window,
            !builder.config.lazy_window,
            builder.config.exit_on_esc,
            builder.config.window_name@ == "miniview"@,
    {
        ConfigBuilder {
            config: Config {
                source,
                fullscreen: false,
                resizable_window: false,
                lazy_window: false,
                exit_on_esc: true,
                window_name: "miniview",
            },
        }
    }

    /// Creates a builder from the provided path, which should point to an
    /// image on the filesystem.
    pub fn from_path(path: &str) -> (builder: Self)
        ensures
            builder.config.source matches Source::ByPath(stored) && stored@ == path@,
            !builder.config.fullscreen,
            !builder.config.resizable_window,
            !builder.config.lazy_window,
            builder.config.exit_on_esc,
            builder.config.window_name@ == "miniview"@,
    {
        Self::new(Source::ByPath(path.to_owned()))
    }

    /// Source of the image to be shown by the window: a path, or raw bytes
    /// imported from the stdin pipe.
    pub fn source(self, value: Source) -> (builder: Self)
        ensures
            builder.config.source == value,
            builder.config.fullscreen == self.config.fullscreen,
            builder.config.resizable_window == self.config.resizable_window,
            builder.config.lazy_window == self.config.lazy_window,
            builder.config.exit_on_esc == self.config.exit_on_esc,
            builder.config.window_name == self.config.window_name,
    {
        ConfigBuilder {
            config: Config {
                source: value,
                ..self.config
            },
        }
    }

    /// Activates fullscreen mode.
    pub fn set_fullscreen(self, value: bool) -> (builder: Self)
        ensures
            builder.config.fullscreen == value,
            builder.config.source == self.config.source,
            builder.config.resizable_window == self.config.resizable_window,
            builder.config.lazy_window == self.config.lazy_window,
            builder.config.exit_on_esc == self.config.exit_on_esc,
            builder.config.window_name == self.config.window_name,
    {
        ConfigBuilder {
            config: Config {
                fullscreen: value,
                ..self.config
            },
        }
    }

    /// Allows window resizing.
    ///
    /// Note: upon resizing of the window, the image itself is not resized.
    /// Note: fullscreen mode implies window resizing.
    pub fn allow_resizable_window(self, value: bool) -> (builder: Self)
        ensures
            builder.config.resizable_window == value,
            builder.config.source == self.config.source,
            builder.config.fullscreen == self.config.fullscreen,
            builder.config.lazy_window == self.config.lazy_window,
            builder.config.exit_on_esc == self.config.exit_on_esc,
            builder.config.window_name == self.config.window_name,
    {
        ConfigBuilder {
            config: Config {
                resizable_window: value,
                ..self.config
            },
        }
    }

    /// Lazily updates the window.
    ///
    /// Warning: if the window uses lazy updates, events may not work as
    /// expected: an input event is required to poll successive window events
    /// in lazy window mode.
    pub fn set_lazy_window(self, value: bool) -> (builder: Self)
        ensures
            builder.config.lazy_window == value,
            builder.config.source == self.config.source,
            builder.config.fullscreen == self.config.fullscreen,
            builder.config.resizable_window == self.config.resizable_window,
            builder.config.exit_on_esc == self.config.exit_on_esc,
            builder.config.window_name == self.config.window_name,
    {
        ConfigBuilder {
            config: Config {
                lazy_window: value,
                ..self.config
            },
        }
    }

    /// Determines whether pressing the escape key closes the window.
    pub fn exit_on_esc(self, value: bool) -> (builder: Self)
        ensures
            builder.config.exit_on_esc == value,
            builder.config.source == self.config.source,
            builder.config.fullscreen == self.config.fullscreen,
            builder.config.resizable_window == self.config.resizable_window,
            builder.config.lazy_window == self.config.lazy_window,
            builder.config.window_name == self.config.window_name,
    {
        ConfigBuilder {
            config: Config {
                exit_on_esc: value,
                ..self.config
            },
        }
    }

    /// Title of the window; useful when trying to capture the window from
    /// another program.
    pub fn window_name(self, value: &'static str) -> (builder: Self)
        ensures
            builder.config.window_name == value,
            builder.config.source == self.config.source,
            builder.config.fullscreen == self.config.fullscreen,
            builder.config.resizable_window == self.config.resizable_window,
            builder.config.lazy_window == self.config.lazy_window,
            builder.config.exit_on_esc == self.config.exit_on_esc,
    {
        ConfigBuilder {
            config: Config {
                window_name: value,
                ..self.config
            },
        }
    }

    /// Constructs a configuration from the default and overridden
    /// configuration values. Total: building never fails.
    pub fn build(self) -> (config: Config)
        ensures
            config == self.config,
    {
        self.config
    }
}

} // verus!

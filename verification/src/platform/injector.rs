//! Text injection: the settings and the order in which the ways of typing
//! are tried.

use vstd::prelude::*;

verus! {

/// Settings of the text injector.
#[derive(Debug, Clone, Copy)]
pub struct InjectorConfig {
    /// The pause after typing, in milliseconds.
    pub key_delay_ms: u64,
    /// The pause before typing starts, in milliseconds.
    pub initial_delay_ms: u64,
}

impl Default for InjectorConfig {
    fn default() -> (config: Self)
        ensures
            config.key_delay_ms == 10,
            config.initial_delay_ms == 50,
    {
        InjectorConfig { key_delay_ms: 10, initial_delay_ms: 50 }
    }
}

/// A way of typing text into the focused application.
#[derive(Debug, Clone, Copy, PartialEq, Eq, Structural)]
pub enum InjectionBackend {
    /// The `wtype` tool, on Wayland.
    Wtype,
    /// The `ydotool` tool, on Wayland.
    Ydotool,
    /// Synthesised key strokes.
    Keystrokes,
}

/// What injecting a text takes.
#[derive(Debug)]
pub struct InjectionPlan {
    /// The pause before typing, in milliseconds.
    pub initial_delay_ms: u64,
    /// The ways of typing, in the order they are tried; the first that
    /// works ends the injection.
    pub backends: Vec<InjectionBackend>,
    /// The pause after key strokes were synthesised, in milliseconds.
    pub key_delay_ms: u64,
}

/// Types text into the focused application.
#[derive(Debug, Clone, Copy)]
pub struct TextInjector {
    config: InjectorConfig,
}

impl TextInjector {
    /// The settings.
    pub closed spec fn spec_config(&self) -> InjectorConfig {
        self.config
    }

    /// An injector with these settings.
    pub fn new(config: InjectorConfig) -> (injector: Self)
        ensures
            injector.spec_config() == config,
    {
        TextInjector { config }
    }

    /// The settings.
    pub fn config(&self) -> (config: InjectorConfig)
        ensures
            config == self.spec_config(),
    {
        self.config
    }

    /// What injecting `text` takes: nothing for an empty text; else the
    /// pause before, the ways of typing in order and the pause after. On
    /// Wayland the two tools are tried before key strokes.
    pub fn plan(&self, text: &str, on_wayland: bool) -> (plan: Option<InjectionPlan>)
        ensures
            text@.len() == 0 <==> plan is None,
            plan matches Some(p) ==> {
                &&& p.initial_delay_ms == self.spec_config().initial_delay_ms
                &&& p.key_delay_ms == self.spec_config().key_delay_ms
                &&& p.backends@ == if on_wayland {
                    seq![
                        InjectionBackend::Wtype,
                        InjectionBackend::Ydotool,
                        InjectionBackend::Keystrokes,
                    ]
                } else {
                    seq![InjectionBackend::Keystrokes]
                }
            },
    {
        if text.is_empty() {
            return None;
        }
        let mut backends: Vec<InjectionBackend> = Vec::new();
        if on_wayland {
            backends.push(InjectionBackend::Wtype);
            backends.push(InjectionBackend::Ydotool);
        }
        backends.push(InjectionBackend::Keystrokes);
        assert(on_wayland ==> backends@ =~= seq![
            InjectionBackend::Wtype,
            InjectionBackend::Ydotool,
            InjectionBackend::Keystrokes,
        ]);
        assert(!on_wayland ==> backends@ =~= seq![InjectionBackend::Keystrokes]);
        Some(
            InjectionPlan {
                initial_delay_ms: self.config.initial_delay_ms,
                backends,
                key_delay_ms: self.config.key_delay_ms,
            },
        )
    }
}

impl Default for TextInjector {
    fn default() -> (injector: Self)
        ensures
            injector.spec_config().key_delay_ms == 10,
            injector.spec_config().initial_delay_ms == 50,
    {
        Self::new(InjectorConfig::default())
    }
}

/// How text gets into the application.
#[derive(Debug, Clone, Copy, PartialEq, Eq, Structural)]
pub enum InjectionStrategy {
    /// Type the text.
    Type,
    /// Copy it to the clipboard and paste.
    Clipboard,
}

impl Default for InjectionStrategy {
    fn default() -> (strategy: Self)
        ensures
            strategy == InjectionStrategy::Type,
    {
        InjectionStrategy::Type
    }
}

} // verus!

//! Feature flags: which of the surrounding application's capabilities are
//! enabled. A plain builder-style value with no hidden state.

use vstd::prelude::*;

verus! {

#[derive(Debug, Clone, Copy, PartialEq, Eq, Structural)]
pub struct Features {
    pub clipboard: bool,
    pub notifications: bool,
    pub deep_links: bool,
    pub system_tray: bool,
}

impl Default for Features {
    /// Everything enabled.
    fn default() -> (r: Self)
        ensures
            r == (Features {
                clipboard: true,
                notifications: true,
                deep_links: true,
                system_tray: true,
            }),
    {
        Features { clipboard: true, notifications: true, deep_links: true, system_tray: true }
    }
}

impl Features {
    /// A new configuration with every feature enabled.
    pub fn new() -> (r: Self)
        ensures
            r == (Features {
                clipboard: true,
                notifications: true,
                deep_links: true,
                system_tray: true,
            }),
    {
        Features::default()
    }

    pub fn with_clipboard(self, enabled: bool) -> (r: Self)
        ensures
            r == (Features { clipboard: enabled, ..self }),
    {
        Features { clipboard: enabled, ..self }
    }

    pub fn with_notifications(self, enabled: bool) -> (r: Self)
        ensures
            r == (Features { notifications: enabled, ..self }),
    {
        Features { notifications: enabled, ..self }
    }

    pub fn with_deep_links(self, enabled: bool) -> (r: Self)
        ensures
            r == (Features { deep_links: enabled, ..self }),
    {
        Features { deep_links: enabled, ..self }
    }

    pub fn with_system_tray(self, enabled: bool) -> (r: Self)
        ensures
            r == (Features { system_tray: enabled, ..self }),
    {
        Features { system_tray: enabled, ..self }
    }

    /// The minimal configuration: nothing enabled.
    pub fn minimal() -> (r: Self)
        ensures
            r == (Features {
                clipboard: false,
                notifications: false,
                deep_links: false,
                system_tray: false,
            }),
    {
        Features {
            clipboard: false,
            notifications: false,
            deep_links: false,
            system_tray: false,
        }
    }

    /// The full configuration: everything enabled.
    pub fn full() -> (r: Self)
        ensures
            r == (Features {
                clipboard: true,
                notifications: true,
                deep_links: true,
                system_tray: true,
            }),
    {
        Features::default()
    }
}

} // verus!

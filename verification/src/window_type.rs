//! The gamescope window mode.

use vstd::prelude::*;
use crate::json::ConfigValue;
use crate::text::str_eq;

verus! {

/// How the gamescope window is shown.
#[derive(Debug, Clone, Copy, PartialEq, Eq, Structural)]
pub enum WindowType {
    Borderless,
    Fullscreen,
}

impl Default for WindowType {
    /// The stock window mode: borderless.
    fn default() -> (r: Self)
        ensures
            r == WindowType::Borderless,
    {
        WindowType::Borderless
    }
}

impl WindowType {
    /// Which window mode a configuration node names; `Borderless` (the
    /// default) when it names neither.
    pub open spec fn spec_from_value(v: ConfigValue) -> WindowType {
        match v.spec_as_str() {
            Some(s) => if s@ == "Borderless"@ {
                WindowType::Borderless
            } else if s@ == "Fullscreen"@ {
                WindowType::Fullscreen
            } else {
                WindowType::Borderless
            },
            None => WindowType::Borderless,
        }
    }

    /// Read a window mode from a configuration node.
    pub fn from_value(value: &ConfigValue) -> (r: Self)
        ensures
            r == Self::spec_from_value(*value),
    {
        match value.as_str() {
            Some(s) => {
                if str_eq(s.as_str(), "Borderless") {
                    WindowType::Borderless
                } else if str_eq(s.as_str(), "Fullscreen") {
                    WindowType::Fullscreen
                } else {
                    WindowType::Borderless
                }
            },
            None => WindowType::Borderless,
        }
    }
}

} // verus!

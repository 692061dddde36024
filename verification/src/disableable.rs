//! Sections of the configuration file that can switch an application off.

use vstd::prelude::*;

verus! {

/// An app that can be disabled via configuration.
pub trait Disableable {
    /// Whether the configured app is disabled.
    spec fn is_disabled(&self) -> bool;

    /// Returns `true` if the configured app is disabled.
    fn disabled(&self) -> (b: bool)
        ensures
            b == self.is_disabled(),
    ;
}

/// A section that holds nothing but the `disabled` switch.
#[derive(Debug, Clone, Copy, PartialEq, Eq, Structural)]
pub struct Disabled {
    disabled: bool,
}

impl Disabled {
    /// A section whose `disabled` key has the given value.
    pub fn new(disabled: bool) -> (section: Self)
        ensures
            section.is_disabled() == disabled,
    {
        Disabled { disabled }
    }
}

impl Default for Disabled {
    /// The section as it reads when the `disabled` key is left out.
    fn default() -> (section: Self)
        ensures
            !section.is_disabled(),
    {
        Disabled { disabled: false }
    }
}

impl Disableable for Disabled {
    closed spec fn is_disabled(&self) -> bool {
        self.disabled
    }

    fn disabled(&self) -> (b: bool) {
        self.disabled
    }
}

/// Marks the settings of an application that can stand in a [`crate::Section`].
pub trait AppConfig {

}

} // verus!

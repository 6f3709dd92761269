//! The settings that outlive a page.
use vstd::prelude::*;

verus! {

/// What a [`Config`] holds.
pub struct ConfigView {
    /// Whether the user wants the credentials kept in the credential store.
    pub save_credentials: bool,
}

/// The settings of the process. A page reads the save preference from it when
/// it is set up and writes the preference back whenever the user changes it.
#[derive(Debug, PartialEq, Eq)]
pub struct Config {
    save_credentials: bool,
}

impl View for Config {
    type V = ConfigView;

    closed spec fn view(&self) -> ConfigView {
        ConfigView { save_credentials: self.save_credentials }
    }
}

impl Config {
    /// Settings with the given save preference.
    pub fn new(save_credentials: bool) -> (config: Config)
        ensures
            config@ == (ConfigView { save_credentials }),
    {
        Config { save_credentials }
    }

    /// The save preference as last written.
    pub fn save_credentials(&self) -> (value: bool)
        ensures
            value == self@.save_credentials,
    {
        self.save_credentials
    }

    /// Writes the save preference. The write is complete when the call returns.
    pub fn set_save_credentials(&mut self, value: bool)
        ensures
            final(self)@ == (ConfigView { save_credentials: value }),
    {
        self.save_credentials = value;
    }
}

} // verus!

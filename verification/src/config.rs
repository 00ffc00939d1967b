use vstd::prelude::*;

verus! {

/// How the observer location was chosen.
#[derive(Debug, Clone, Copy, PartialEq, Eq, Structural, Default)]
pub enum LocationMode {
    /// Coarse location from the public IP address.
    #[default]
    Ip,
    /// A place picked by the user.
    Manual,
}

/// Interface language preference stored in the configuration.
#[derive(Debug, Clone, Copy, PartialEq, Eq, Structural, Default)]
pub enum LanguagePref {
    /// Follow the operating system's UI language.
    #[default]
    System,
    Zh,
    En,
}

} // verus!

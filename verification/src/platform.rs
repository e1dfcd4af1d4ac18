//! The platform table: the few facts that differ between the supported
//! operating-system families.

use vstd::prelude::*;

verus! {

/// An operating-system family, as far as this crate cares: it decides the
/// executable-name suffix, the default shell and the search-path separator.
#[derive(Clone, Copy, Debug, PartialEq, Eq, Structural)]
pub enum Platform {
    /// POSIX-like systems.
    Unix,
    /// Windows-like systems.
    Windows,
}

impl Platform {
    /// The platform this build targets. The crate is built for POSIX-like
    /// systems; the Windows rows of the tables are kept so that both columns
    /// stay stated and checked.
    pub fn current() -> (r: Platform)
        ensures
            r is Unix,
    {
        Platform::Unix
    }

    /// The separator between the directories of the executable search path.
    pub fn list_separator(&self) -> (r: char)
        ensures
            *self is Unix ==> r == ':',
            *self is Windows ==> r == ';',
    {
        match self {
            Platform::Unix => ':',
            Platform::Windows => ';',
        }
    }
}

} // verus!

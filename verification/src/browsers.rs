//! Browsers the tooling knows about.

use vstd::prelude::*;

verus! {

/// How a browser came to be known.
#[derive(Debug, Clone, Copy, PartialEq, Eq, Structural)]
pub enum BrowserKind {
    /// From the built-in list of known browsers.
    Known,
    /// Found by scanning the filesystem.
    Detected,
    /// Added by the user's configuration.
    Custom,
}

/// A Chromium-family browser install.
#[derive(Debug, Clone, PartialEq, Eq)]
pub struct Browser {
    /// Display name.
    pub name: String,
    /// Install location.
    pub install_path: String,
    /// How the browser was found.
    pub kind: BrowserKind,
    /// Framework bundle name (macOS), when it differs from the default.
    pub framework_name: Option<String>,
}

impl Browser {
    /// The display name.
    pub fn name(&self) -> (n: &str)
        ensures
            n@ == self.name@,
    {
        self.name.as_str()
    }
}

} // verus!

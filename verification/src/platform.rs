//! The two families of operating system the tunnel client runs on.

use vstd::prelude::*;

verus! {

/// The platform the host application was built for.
#[derive(Clone, Copy, Debug, PartialEq, Eq, Structural)]
pub enum Platform {
    Windows,
    UnixLike,
}

impl Platform {
    /// Only on Windows can the tunnel client be installed on the user's behalf.
    pub open spec fn auto_installs(self) -> bool {
        self == Platform::Windows
    }

    /// The text that separates two components of a path.
    pub open spec fn separator_text(self) -> Seq<char> {
        match self {
            Platform::Windows => "\\"@,
            Platform::UnixLike => "/"@,
        }
    }

    /// Whether `c` separates path components on this platform. Windows accepts
    /// both slashes.
    pub open spec fn separates(self, c: char) -> bool {
        match self {
            Platform::Windows => c == '\\' || c == '/',
            Platform::UnixLike => c == '/',
        }
    }

    pub fn supports_auto_install(&self) -> (yes: bool)
        ensures
            yes == self.auto_installs(),
    {
        match self {
            Platform::Windows => true,
            Platform::UnixLike => false,
        }
    }

    pub fn separator(&self) -> (text: &'static str)
        ensures
            text@ == self.separator_text(),
    {
        match self {
            Platform::Windows => "\\",
            Platform::UnixLike => "/",
        }
    }

    pub fn is_separator(&self, c: char) -> (yes: bool)
        ensures
            yes == self.separates(c),
    {
        match self {
            Platform::Windows => c == '\\' || c == '/',
            Platform::UnixLike => c == '/',
        }
    }
}

} // verus!

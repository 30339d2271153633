//! The operating systems that the library knows how to open a URL on.

use vstd::prelude::*;
use vstd::string::StringExecFns;

verus! {

/// A host operating system, each with its own way of opening a URL.
#[derive(Clone, Copy, Debug, PartialEq, Eq, Structural)]
pub enum Platform {
    Windows,
    MacOs,
    Linux,
}

/// The platform that an operating-system name, as Rust's standard library
/// spells it (`"windows"`, `"macos"`, `"linux"`), stands for.
pub open spec fn platform_named(name: Seq<char>) -> Option<Platform> {
    if name == "windows"@ {
        Some(Platform::Windows)
    } else if name == "macos"@ {
        Some(Platform::MacOs)
    } else if name == "linux"@ {
        Some(Platform::Linux)
    } else {
        None
    }
}

impl Platform {
    /// Picks the platform from the name of the operating system that the
    /// program was built for; `None` where no way of opening a URL is known.
    pub fn from_os_name(name: &str) -> (r: Option<Platform>)
        ensures
            r == platform_named(name@),
    {
        let name = String::from_str(name);
        if name == String::from_str("windows") {
            Some(Platform::Windows)
        } else if name == String::from_str("macos") {
            Some(Platform::MacOs)
        } else if name == String::from_str("linux") {
            Some(Platform::Linux)
        } else {
            None
        }
    }
}

} // verus!

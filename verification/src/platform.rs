//! The platform that the probes are built for.

pub mod linux;

use vstd::prelude::*;
use crate::text::to_chars;
use crate::tokens::chars_eq;

verus! {

/// An operating system with its own detection strategies, or `Unknown`.
#[derive(Debug, Clone, Copy, PartialEq, Eq, Structural)]
pub enum Platform {
    Linux,
    MacOs,
    Windows,
    FreeBsd,
    Unknown,
}

impl Platform {
    /// The platform that an operating system's name stands for.
    pub open spec fn of_name(name: Seq<char>) -> Platform {
        if name == "linux"@ {
            Platform::Linux
        } else if name == "macos"@ {
            Platform::MacOs
        } else if name == "windows"@ {
            Platform::Windows
        } else if name == "freebsd"@ {
            Platform::FreeBsd
        } else {
            Platform::Unknown
        }
    }

    /// The platform that an operating system's name stands for: `linux`,
    /// `macos`, `windows` or `freebsd`; any other name is `Unknown`.
    pub fn from_os_name(name: &str) -> (p: Platform)
        ensures
            p == Platform::of_name(name@),
    {
        let n = to_chars(name);
        if chars_eq(&n, "linux") {
            Platform::Linux
        } else if chars_eq(&n, "macos") {
            Platform::MacOs
        } else if chars_eq(&n, "windows") {
            Platform::Windows
        } else if chars_eq(&n, "freebsd") {
            Platform::FreeBsd
        } else {
            Platform::Unknown
        }
    }

    /// Whether the platform has detection strategies of its own.
    pub fn is_supported(self) -> (b: bool)
        ensures
            b == !(self is Unknown),
    {
        match self {
            Platform::Unknown => false,
            _ => true,
        }
    }
}

/// What is fixed when the probes are built: the operating system, whether
/// it belongs to the Unix family, and the processor architecture.
#[derive(Debug, Clone, Copy, PartialEq, Eq)]
pub struct BuildTarget {
    pub os: Platform,
    pub unix: bool,
    pub arch: &'static str,
}

} // verus!

//! The running platform: operating system and CPU architecture, the dynamic
//! library naming convention of each, and the name of the core library file.
//! Compile-time platform branching in the surrounding program becomes a value
//! of these enums, handed in once.

use vstd::prelude::*;

verus! {

/// Operating system the component is installed on.
#[derive(Clone, Copy, PartialEq, Eq, Structural, Debug)]
pub enum Os {
    Macos,
    Linux,
    Windows,
    Other,
}

/// CPU architecture the component is installed on.
#[derive(Clone, Copy, PartialEq, Eq, Structural, Debug)]
pub enum Arch {
    X86_64,
    Aarch64,
    Other,
}

impl Os {
    /// Prefix of a dynamic-library file name on this system.
    pub open spec fn dll_prefix_seq(self) -> Seq<char> {
        match self {
            Os::Windows => ""@,
            _ => "lib"@,
        }
    }

    /// Suffix of a dynamic-library file name on this system.
    pub open spec fn dll_suffix_seq(self) -> Seq<char> {
        match self {
            Os::Macos => ".dylib"@,
            Os::Windows => ".dll"@,
            _ => ".so"@,
        }
    }

    /// File name of the core dynamic library on this system.
    pub open spec fn core_lib_name_seq(self) -> Seq<char> {
        match self {
            Os::Macos => "libMaaCore.dylib"@,
            Os::Windows => "MaaCore.dll"@,
            _ => "libMaaCore.so"@,
        }
    }

    pub fn dll_prefix(&self) -> (r: &'static str)
        ensures
            r@ == self.dll_prefix_seq(),
    {
        match self {
            Os::Windows => "",
            _ => "lib",
        }
    }

    pub fn dll_suffix(&self) -> (r: &'static str)
        ensures
            r@ == self.dll_suffix_seq(),
    {
        match self {
            Os::Macos => ".dylib",
            Os::Windows => ".dll",
            _ => ".so",
        }
    }

    pub fn core_lib_name(&self) -> (r: &'static str)
        ensures
            r@ == self.core_lib_name_seq(),
    {
        match self {
            Os::Macos => "libMaaCore.dylib",
            Os::Windows => "MaaCore.dll",
            _ => "libMaaCore.so",
        }
    }
}

} // verus!

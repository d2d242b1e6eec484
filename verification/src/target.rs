//! The platform a build is produced for, and what follows from it alone: the
//! C++ runtime to link and the optimisation flags of a release build.

use vstd::prelude::*;

verus! {

/// The mathematical content of a [`BuildTarget`].
pub struct TargetModel {
    pub architecture: Seq<char>,
    pub operating_system: Seq<char>,
    pub abi: Seq<char>,
}

impl TargetModel {
    /// Whether the architecture is the WebAssembly one.
    pub open spec fn is_wasm(self) -> bool {
        self.architecture == "wasm32"@
    }

    /// Whether the target is Windows with the MSVC ABI.
    pub open spec fn is_windows_msvc(self) -> bool {
        self.operating_system == "windows"@ && self.abi == "msvc"@
    }

    /// Whether the operating system is one of the BSD family.
    pub open spec fn is_bsd(self) -> bool {
        self.operating_system == "freebsd"@ || self.operating_system == "openbsd"@
            || self.operating_system == "netbsd"@ || self.operating_system == "dragonfly"@
    }

    /// The C++ runtime that a native build for this target links: the GNU one
    /// on Linux, whatever the ABI, and on Windows with the GNU ABI; the LLVM one
    /// on macOS and on the BSD family; none by name on Windows with the MSVC
    /// ABI, where the linker supplies it. Every other target is not recognized.
    pub open spec fn cpp_runtime(self) -> CppRuntime {
        if self.operating_system == "linux"@ || (self.operating_system == "windows"@ && self.abi
            == "gnu"@) {
            CppRuntime::Gnu
        } else if self.operating_system == "macos"@ || self.is_bsd() {
            CppRuntime::Llvm
        } else if self.is_windows_msvc() {
            CppRuntime::Implicit
        } else {
            CppRuntime::Unrecognized
        }
    }

    /// The compiler flags of an optimised build for this target.
    pub open spec fn release_flags(self) -> Seq<char> {
        if self.is_windows_msvc() {
            "/MD /O2 /Ob2 /DNDEBUG"@
        } else {
            "-O3 -DNDEBUG"@
        }
    }
}

/// The architecture, operating system and ABI a build is produced for.
#[derive(Clone, Debug, PartialEq, Eq)]
pub struct BuildTarget {
    pub architecture: String,
    pub operating_system: String,
    pub abi: String,
}

impl View for BuildTarget {
    type V = TargetModel;

    open spec fn view(&self) -> TargetModel {
        TargetModel {
            architecture: self.architecture@,
            operating_system: self.operating_system@,
            abi: self.abi@,
        }
    }
}

/// How a native target gets its C++ standard library.
#[derive(Clone, Copy, Debug, PartialEq, Eq, Structural)]
pub enum CppRuntime {
    /// The GNU runtime is linked by name.
    Gnu,
    /// The LLVM runtime is linked by name.
    Llvm,
    /// The platform's linker supplies the runtime; nothing is named.
    Implicit,
    /// The platform is not known; nothing is named.
    Unrecognized,
}

impl CppRuntime {
    /// The library to link by name, where there is one.
    pub open spec fn library(self) -> Option<Seq<char>> {
        match self {
            CppRuntime::Gnu => Some("stdc++"@),
            CppRuntime::Llvm => Some("c++"@),
            CppRuntime::Implicit => None,
            CppRuntime::Unrecognized => None,
        }
    }

    /// The library to link by name, where there is one.
    pub fn library_name(self) -> (name: Option<String>)
        ensures
            name.deep_view() == self.library(),
    {
        match self {
            CppRuntime::Gnu => Some("stdc++".to_owned()),
            CppRuntime::Llvm => Some("c++".to_owned()),
            CppRuntime::Implicit => None,
            CppRuntime::Unrecognized => None,
        }
    }
}

/// Whether `text` reads exactly as `word`.
pub(crate) fn reads_as(text: &String, word: &str) -> (same: bool)
    ensures
        same == (text@ == word@),
{
    let other = word.to_owned();
    *text == other
}

impl BuildTarget {
    /// Whether the architecture is the WebAssembly one.
    pub fn is_wasm(&self) -> (wasm: bool)
        ensures
            wasm == self@.is_wasm(),
    {
        reads_as(&self.architecture, "wasm32")
    }

    /// Whether the target is Windows with the MSVC ABI.
    pub fn is_windows_msvc(&self) -> (msvc: bool)
        ensures
            msvc == self@.is_windows_msvc(),
    {
        reads_as(&self.operating_system, "windows") && reads_as(&self.abi, "msvc")
    }

    /// Whether the operating system is one of the BSD family.
    pub fn is_bsd(&self) -> (bsd: bool)
        ensures
            bsd == self@.is_bsd(),
    {
        let os = &self.operating_system;
        reads_as(os, "freebsd") || reads_as(os, "openbsd") || reads_as(os, "netbsd") || reads_as(
            os,
            "dragonfly",
        )
    }

    /// The C++ runtime that a native build for this target links.
    pub fn cpp_runtime(&self) -> (runtime: CppRuntime)
        ensures
            runtime == self@.cpp_runtime(),
    {
        let os = &self.operating_system;
        if reads_as(os, "linux") || (reads_as(os, "windows") && reads_as(&self.abi, "gnu")) {
            CppRuntime::Gnu
        } else if reads_as(os, "macos") || self.is_bsd() {
            CppRuntime::Llvm
        } else if self.is_windows_msvc() {
            CppRuntime::Implicit
        } else {
            CppRuntime::Unrecognized
        }
    }

    /// The compiler flags of an optimised build for this target.
    pub fn release_flags(&self) -> (flags: String)
        ensures
            flags@ == self@.release_flags(),
    {
        if self.is_windows_msvc() {
            "/MD /O2 /Ob2 /DNDEBUG".to_owned()
        } else {
            "-O3 -DNDEBUG".to_owned()
        }
    }
}

} // verus!

//! The failures that end a build.

use vstd::prelude::*;

verus! {

/// A failure after which the build cannot go on.
#[derive(Clone, Copy, Debug, PartialEq, Eq, Structural)]
pub enum FatalError {
    /// A WebAssembly build from the sources was due and no SDK root is set.
    MissingSdkRoot,
    /// The build of the sources did not deliver an installation directory.
    BuildFailed,
    /// The directory for the omitted headers could not be created.
    CreateUtilityDirFailed,
    /// The omitted headers could not be copied.
    CopyUtilityHeadersFailed,
    /// The declarations of the prebuilt bundle could not be copied.
    CopyPrebuiltBindingsFailed,
    /// The vendored declarations could not be copied.
    CopyVendoredBindingsFailed,
    /// The cached declarations could not be copied.
    CopyCachedBindingsFailed,
    /// The declarations could not be generated or written.
    BindingsGenerationFailed,
}

impl FatalError {
    /// The message that goes with the failure.
    pub open spec fn message(self) -> Seq<char> {
        match self {
            FatalError::MissingSdkRoot =>
                "EMSDK environment variable required for WASM builds. Install from https://emscripten.org or use prebuilt binaries"@,
            FatalError::BuildFailed => "Failed to build FastNoise2 from source"@,
            FatalError::CreateUtilityDirFailed => "Failed to create Utility dir"@,
            FatalError::CopyUtilityHeadersFailed => "Failed to copy header"@,
            FatalError::CopyPrebuiltBindingsFailed => "Failed to copy prebuilt bindings"@,
            FatalError::CopyVendoredBindingsFailed => "Failed to copy vendored bindings"@,
            FatalError::CopyCachedBindingsFailed => "Failed to copy cached bindings"@,
            FatalError::BindingsGenerationFailed => "Unable to generate bindings"@,
        }
    }

    /// The message that goes with the failure.
    pub fn describe(self) -> (text: &'static str)
        ensures
            text@ == self.message(),
    {
        match self {
            FatalError::MissingSdkRoot =>
                "EMSDK environment variable required for WASM builds. Install from https://emscripten.org or use prebuilt binaries",
            FatalError::BuildFailed => "Failed to build FastNoise2 from source",
            FatalError::CreateUtilityDirFailed => "Failed to create Utility dir",
            FatalError::CopyUtilityHeadersFailed => "Failed to copy header",
            FatalError::CopyPrebuiltBindingsFailed => "Failed to copy prebuilt bindings",
            FatalError::CopyVendoredBindingsFailed => "Failed to copy vendored bindings",
            FatalError::CopyCachedBindingsFailed => "Failed to copy cached bindings",
            FatalError::BindingsGenerationFailed => "Unable to generate bindings",
        }
    }
}

} // verus!

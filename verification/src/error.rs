//! The failures that the library reports.

use vstd::prelude::*;

verus! {

/// Why a chain could not be loaded or a frame could not be rendered.
#[derive(Clone, Copy, Debug, PartialEq, Eq, Structural)]
pub enum FilterChainError {
    /// Reflection declares a uniform member twice in one block.
    ShaderReflectError,
    /// A lookup texture of the preset was not loaded.
    LutLoadError,
    /// A render target could not be allocated; the backend's status is kept.
    FramebufferInit(u32),
    /// A uniform's offset and size do not fit the block declared for it.
    UniformOffsetOutOfRange,
    /// What the backend handed in does not answer what was asked of it.
    AllocationMismatch,
}

impl FilterChainError {
    /// The description of each failure.
    pub open spec fn description(self) -> Seq<char> {
        match self {
            FilterChainError::ShaderReflectError => "shader reflect error"@,
            FilterChainError::LutLoadError => "lut loading error"@,
            FilterChainError::FramebufferInit(_) => "framebuffer init error"@,
            FilterChainError::UniformOffsetOutOfRange => "uniform offset out of range"@,
            FilterChainError::AllocationMismatch => "allocations do not answer the requests"@,
        }
    }

    /// A short description of the failure.
    pub fn message(&self) -> (text: &'static str)
        ensures
            text@ == self.description(),
    {
        match self {
            FilterChainError::ShaderReflectError => "shader reflect error",
            FilterChainError::LutLoadError => "lut loading error",
            FilterChainError::FramebufferInit(_) => "framebuffer init error",
            FilterChainError::UniformOffsetOutOfRange => "uniform offset out of range",
            FilterChainError::AllocationMismatch => "allocations do not answer the requests",
        }
    }
}

} // verus!

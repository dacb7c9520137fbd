//! Depth test related features.
use vstd::prelude::*;

verus! {

/// Depth comparison to perform while depth test. `a` is the incoming fragment’s depth and b is the
/// fragment’s depth that is already stored.
#[derive(Clone, Copy, Debug, PartialEq, Eq, Structural)]
pub enum DepthComparison {
    /// Depth test never succeeds.
    Never,
    /// Depth test always succeeds.
    Always,
    /// Depth test succeeds if `a == b`.
    Equal,
    /// Depth test succeeds if `a != b`.
    NotEqual,
    /// Depth test succeeds if `a < b`.
    Less,
    /// Depth test succeeds if `a <= b`.
    LessOrEqual,
    /// Depth test succeeds if `a > b`.
    Greater,
    /// Depth test succeeds if `a >= b`.
    GreaterOrEqual,
}

/// Whether or not depth writes should be performed when rendering.
#[derive(Clone, Copy, Debug, PartialEq, Eq, Structural)]
pub enum DepthWrite {
    /// Write values to depth buffers.
    On,
    /// Do not write values to depth buffers.
    Off,
}

} // verus!

//! Hardware information reported by the engine.
use vstd::prelude::*;

verus! {

/// Instruction-set features the engine was built to use.
#[derive(Debug, Clone, Copy, PartialEq, Eq, Structural)]
pub struct SystemInfo {
    pub avx: bool,
    pub avx2: bool,
    pub fma: bool,
    pub f16c: bool,
}

impl SystemInfo {
    /// Reads the engine's feature flags, where any nonzero flag means present.
    pub fn from_flags(avx: i32, avx2: i32, fma: i32, f16c: i32) -> (r: Self)
        ensures
            r.avx == (avx != 0),
            r.avx2 == (avx2 != 0),
            r.fma == (fma != 0),
            r.f16c == (f16c != 0),
    {
        SystemInfo { avx: avx != 0, avx2: avx2 != 0, fma: fma != 0, f16c: f16c != 0 }
    }
}

/// Memory of one GPU, in bytes.
#[derive(Debug, Clone, Copy, PartialEq, Eq, Structural)]
pub struct VKVram {
    pub free: usize,
    pub total: usize,
}

} // verus!

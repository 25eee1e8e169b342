//! Processor capabilities that the pipeline's components are tuned for.

use vstd::prelude::*;

verus! {

/// The cache-line size, in bytes, that every component assumes.
pub const CACHE_LINE_SIZE: usize = 64;

/// Capabilities of the processor the pipeline runs on.
#[derive(Debug, Clone, Copy)]
pub struct CpuFeatures {
    pub has_rdtsc: bool,
    pub has_prefetch: bool,
    pub has_avx: bool,
    pub cache_line_size: usize,
}

impl CpuFeatures {
    /// The cache-line size of the target: 64 bytes on every supported platform.
    pub fn detect_cache_line_size() -> (size: usize)
        ensures
            size == CACHE_LINE_SIZE,
    {
        CACHE_LINE_SIZE
    }

    /// Reports the capabilities assumed of a modern processor: a timestamp
    /// counter, prefetch and AVX are present, and cache lines are 64 bytes.
    pub fn detect() -> (features: CpuFeatures)
        ensures
            features.has_rdtsc,
            features.has_prefetch,
            features.has_avx,
            features.cache_line_size == CACHE_LINE_SIZE,
    {
        CpuFeatures {
            has_rdtsc: true,
            has_prefetch: true,
            has_avx: true,
            cache_line_size: CpuFeatures::detect_cache_line_size(),
        }
    }
}

} // verus!

//! Sizing of network buffers from bandwidth and round-trip time.
//!
//! The planner works in whole numbers. Bandwidth is given in kilobits per
//! second and the round-trip time in microseconds, so that a link of
//! 1000 Mbit/s with 1 ms of delay is given as 1000000 and 1000. The product of
//! the two, divided by 8000, is the bandwidth-delay product in bytes.

use vstd::prelude::*;
use vstd::arithmetic::power2::is_pow2;
use crate::bits::lemma_pow2_is_single_bit;
use crate::cpu::CpuFeatures;

verus! {

/// Kilobit-microseconds in one byte: 8 bits, times 1000 for the two scales.
pub const KBIT_US_PER_BYTE: u64 = 8000;

/// The safety factor applied to the bandwidth-delay product, in percent.
pub const SAFETY_FACTOR_PERCENT: u32 = 150;

/// The safety factor reported with a rejected input, in percent.
pub const NEUTRAL_FACTOR_PERCENT: u32 = 100;

/// The time a packet spends in the kernel's network path, in microseconds.
pub const KERNEL_PROCESSING_US: u64 = 75;

/// The time a packet spends in a user-space network path, in microseconds.
pub const USERSPACE_PROCESSING_US: u64 = 5;

/// The error of either measurement, in microseconds.
pub const MEASUREMENT_ERROR_MARGIN_US: u64 = 5;

/// The first of `candidate`, `2 * candidate`, `4 * candidate`, ... that is at
/// least `n`.
pub open spec fn doubled_until(n: nat, candidate: nat) -> nat
    decreases (if candidate < n { n - candidate } else { 0 }),
{
    if candidate >= n || candidate == 0 {
        candidate
    } else {
        doubled_until(n, candidate + candidate)
    }
}

/// The least power of two that is at least `n`; one for `n == 0`.
pub open spec fn next_power_of_two_model(n: nat) -> nat {
    doubled_until(n, 1)
}

/// `n` rounded up to a multiple of `line`.
pub open spec fn round_up_to_line(n: nat, line: nat) -> nat {
    if line == 0 || n % line == 0 {
        n
    } else {
        (n / line + 1) * line
    }
}

/// The bandwidth-delay product in bytes, rounded down.
pub open spec fn bdp_bytes_model(bandwidth_kbps: int, rtt_us: int) -> nat {
    ((bandwidth_kbps * rtt_us) / (KBIT_US_PER_BYTE as int)) as nat
}

/// One and a half times the bandwidth-delay product in bytes, rounded down.
pub open spec fn padded_bytes_model(bandwidth_kbps: int, rtt_us: int) -> nat {
    ((bandwidth_kbps * rtt_us * 3) / (2 * KBIT_US_PER_BYTE)) as nat
}

/// What the planner recommends for a link.
#[derive(Debug, Clone, Copy, PartialEq, Eq, Structural)]
pub struct BufferOptimization {
    pub requested_bandwidth_kbps: i32,
    pub requested_rtt_us: i32,
    pub calculated_bdp_bytes: u64,
    pub recommended_buffer_bytes: u64,
    pub is_valid: bool,
    pub safety_factor_percent: u32,
    pub cache_aligned: bool,
}

/// The recommendation for a link, on a machine with cache lines of `line`
/// bytes. A bandwidth or a round-trip time that is not positive gives a
/// recommendation that is marked invalid and holds no sizes.
pub open spec fn optimization_model(bandwidth_kbps: i32, rtt_us: i32, line: nat) -> BufferOptimization {
    if bandwidth_kbps <= 0 || rtt_us <= 0 {
        BufferOptimization {
            requested_bandwidth_kbps: bandwidth_kbps,
            requested_rtt_us: rtt_us,
            calculated_bdp_bytes: 0,
            recommended_buffer_bytes: 0,
            is_valid: false,
            safety_factor_percent: NEUTRAL_FACTOR_PERCENT,
            cache_aligned: false,
        }
    } else {
        let optimal = next_power_of_two_model(
            padded_bytes_model(bandwidth_kbps as int, rtt_us as int),
        );
        let aligned = round_up_to_line(optimal, line);
        BufferOptimization {
            requested_bandwidth_kbps: bandwidth_kbps,
            requested_rtt_us: rtt_us,
            calculated_bdp_bytes: bdp_bytes_model(bandwidth_kbps as int, rtt_us as int) as u64,
            recommended_buffer_bytes: aligned as u64,
            is_valid: true,
            safety_factor_percent: SAFETY_FACTOR_PERCENT,
            cache_aligned: aligned == optimal,
        }
    }
}

/// An estimate of what bypassing the kernel saves per packet.
#[derive(Debug, Clone, Copy, PartialEq, Eq, Structural)]
pub struct KernelBypassAnalysis {
    pub kernel_processing_us: u64,
    pub userspace_processing_us: u64,
    pub net_savings_us: u64,
    pub confidence_interval_us: u64,
    pub measurement_error_us: u64,
    pub is_reliable: bool,
}

/// Doubling from a power of two reaches the least power of two that is at
/// least `n`: the result is a power of two, it is at least `n`, and half of it
/// is below `n` unless the result is `candidate` itself.
pub proof fn lemma_doubled_until(n: nat, candidate: nat)
    requires
        is_pow2(candidate as int),
    ensures
        is_pow2(doubled_until(n, candidate) as int),
        doubled_until(n, candidate) >= n,
        doubled_until(n, candidate) >= candidate,
        doubled_until(n, candidate) == candidate || doubled_until(n, candidate) < 2 * n,
    decreases (if candidate < n { n - candidate } else { 0 }),
{
    reveal(is_pow2);
    if candidate >= n || candidate == 0 {
    } else {
        assert(is_pow2((candidate + candidate) as int));
        lemma_doubled_until(n, candidate + candidate);
    }
}

/// `next_power_of_two_model(n)` is a power of two that is at least `n`, and
/// for `n > 1` no power of two between `n` and it exists: half of it lies
/// below `n`.
pub proof fn lemma_next_power_of_two(n: nat)
    ensures
        is_pow2(next_power_of_two_model(n) as int),
        next_power_of_two_model(n) >= n,
        n <= 1 ==> next_power_of_two_model(n) == 1,
        n > 1 ==> next_power_of_two_model(n) < 2 * n,
{
    reveal(is_pow2);
    assert(is_pow2(1));
    lemma_doubled_until(n, 1);
}

/// The least power of two that is at least `n`, for `n` up to 2^63.
pub fn next_power_of_two(n: u64) -> (power: u64)
    requires
        n <= 0x8000_0000_0000_0000,
    ensures
        power == next_power_of_two_model(n as nat),
{
    let mut power: u64 = 1;
    proof {
        reveal(is_pow2);
        assert(is_pow2(1));
    }
    while power < n
        invariant
            1 <= power <= 0x8000_0000_0000_0000,
            n <= 0x8000_0000_0000_0000,
            is_pow2(power as int),
            doubled_until(n as nat, power as nat) == doubled_until(n as nat, 1),
        decreases (if power < n { n - power } else { 0 }),
    {
        proof {
            reveal(is_pow2);
            lemma_doubled_until(n as nat, power as nat);
            lemma_pow2_below_top(power);
        }
        power = power * 2;
    }
    power
}

/// A power of two below 2^63 is at most 2^62.
proof fn lemma_pow2_below_top(p: u64)
    requires
        is_pow2(p as int),
        p < 0x8000_0000_0000_0000,
    ensures
        p <= 0x4000_0000_0000_0000,
{
    lemma_pow2_is_single_bit(p);
    assert(p > 0 && p & ((p - 1) as u64) == 0 && p < 0x8000_0000_0000_0000 ==> p
        <= 0x4000_0000_0000_0000) by (bit_vector);
}

/// Recommends buffer sizes for the machine it was built on.
pub struct ProductionNetworkOptimizer {
    cpu_features: CpuFeatures,
}

impl ProductionNetworkOptimizer {
    /// The cache-line size, in bytes, to which recommendations are rounded.
    pub closed spec fn cache_line(&self) -> nat {
        self.cpu_features.cache_line_size as nat
    }

    /// The representation invariant: cache lines are between 1 and 2^32 bytes.
    pub closed spec fn wf(&self) -> bool {
        0 < self.cpu_features.cache_line_size <= 0x1_0000_0000
    }

    /// An optimizer for the detected processor, with cache lines of 64 bytes.
    pub fn new() -> (optimizer: Self)
        ensures
            optimizer.wf(),
            optimizer.cache_line() == 64,
    {
        ProductionNetworkOptimizer { cpu_features: CpuFeatures::detect() }
    }

    /// What bypassing the kernel saves: 75 µs in the kernel less 5 µs in user
    /// space, known to a tenth of itself, and reliable because the saving is
    /// more than twice the error of the measurements.
    pub fn calculate_kernel_bypass_benefit_detailed(&self) -> (analysis: KernelBypassAnalysis)
        ensures
            analysis == (KernelBypassAnalysis {
                kernel_processing_us: 75,
                userspace_processing_us: 5,
                net_savings_us: 70,
                confidence_interval_us: 7,
                measurement_error_us: 5,
                is_reliable: true,
            }),
    {
        let net_savings: u64 = KERNEL_PROCESSING_US - USERSPACE_PROCESSING_US;
        let confidence_interval: u64 = net_savings / 10;
        KernelBypassAnalysis {
            kernel_processing_us: KERNEL_PROCESSING_US,
            userspace_processing_us: USERSPACE_PROCESSING_US,
            net_savings_us: net_savings,
            confidence_interval_us: confidence_interval,
            measurement_error_us: MEASUREMENT_ERROR_MARGIN_US,
            is_reliable: net_savings > 2 * MEASUREMENT_ERROR_MARGIN_US,
        }
    }

    /// The recommended buffer for a link of `bandwidth_kbps` kilobits per
    /// second and a round trip of `rtt_us` microseconds: the bandwidth-delay
    /// product with half as much again, raised to the next power of two and
    /// then to a multiple of the cache line.
    pub fn calculate_optimal_buffer_size_comprehensive(
        &self,
        bandwidth_kbps: i32,
        rtt_us: i32,
    ) -> (plan: BufferOptimization)
        requires
            self.wf(),
        ensures
            plan == optimization_model(bandwidth_kbps, rtt_us, self.cache_line()),
    {
        if bandwidth_kbps <= 0 || rtt_us <= 0 {
            return BufferOptimization {
                requested_bandwidth_kbps: bandwidth_kbps,
                requested_rtt_us: rtt_us,
                calculated_bdp_bytes: 0,
                recommended_buffer_bytes: 0,
                is_valid: false,
                safety_factor_percent: NEUTRAL_FACTOR_PERCENT,
                cache_aligned: false,
            };
        }
        let line: u64 = self.cpu_features.cache_line_size as u64;
        assert(0 < bandwidth_kbps * rtt_us <= 0x7fff_ffff * 0x7fff_ffff) by (nonlinear_arith)
            requires
                0 < bandwidth_kbps <= 0x7fff_ffff,
                0 < rtt_us <= 0x7fff_ffff,
        ;
        let product: u64 = (bandwidth_kbps as u64) * (rtt_us as u64);
        let bdp_bytes: u64 = product / KBIT_US_PER_BYTE;
        let recommended_size: u64 = (product * 3) / (2 * KBIT_US_PER_BYTE);
        let optimal_size: u64 = next_power_of_two(recommended_size);
        proof {
            lemma_next_power_of_two(recommended_size as nat);
        }
        let cache_aligned_size: u64 = if optimal_size % line == 0 {
            optimal_size
        } else {
            assert((optimal_size / line + 1) * line <= optimal_size + line) by (nonlinear_arith)
                requires
                    line > 0,
            ;
            (optimal_size / line + 1) * line
        };
        BufferOptimization {
            requested_bandwidth_kbps: bandwidth_kbps,
            requested_rtt_us: rtt_us,
            calculated_bdp_bytes: bdp_bytes,
            recommended_buffer_bytes: cache_aligned_size,
            is_valid: true,
            safety_factor_percent: SAFETY_FACTOR_PERCENT,
            cache_aligned: cache_aligned_size == optimal_size,
        }
    }
}

/// The planner is a function: it has no state, and the recommendation depends
/// on the link and on the cache-line size alone. A valid recommendation is a
/// multiple of the cache line and at least one and a half times the
/// bandwidth-delay product; it is marked as aligned exactly when the power of
/// two needed no rounding.
pub proof fn lemma_recommendation(bandwidth_kbps: i32, rtt_us: i32, line: nat)
    requires
        0 < line <= 0x1_0000_0000,
    ensures
        ({
            let plan = optimization_model(bandwidth_kbps, rtt_us, line);
            let optimal = next_power_of_two_model(
                padded_bytes_model(bandwidth_kbps as int, rtt_us as int),
            );
            &&& plan.is_valid == (bandwidth_kbps > 0 && rtt_us > 0)
            &&& !plan.is_valid ==> plan.recommended_buffer_bytes == 0 && plan.calculated_bdp_bytes
                == 0
            &&& plan.is_valid ==> plan.recommended_buffer_bytes % (line as u64) == 0
            &&& plan.is_valid ==> plan.recommended_buffer_bytes >= padded_bytes_model(
                bandwidth_kbps as int,
                rtt_us as int,
            )
            &&& plan.is_valid ==> plan.cache_aligned == (optimal % line == 0)
        }),
{
    if bandwidth_kbps > 0 && rtt_us > 0 {
        let product = bandwidth_kbps as int * rtt_us as int;
        assert(0 < product <= 0x7fff_ffff * 0x7fff_ffff) by (nonlinear_arith)
            requires
                product == bandwidth_kbps as int * rtt_us as int,
                0 < bandwidth_kbps <= 0x7fff_ffff,
                0 < rtt_us <= 0x7fff_ffff,
        ;
        let padded = padded_bytes_model(bandwidth_kbps as int, rtt_us as int);
        assert(padded == (product * 3) / 16000);
        assert(padded <= 0x4000_0000_0000_0000);
        let optimal = next_power_of_two_model(padded);
        lemma_next_power_of_two(padded);
        assert(optimal <= 0x8000_0000_0000_0000);
        let aligned = round_up_to_line(optimal, line);
        if optimal % line != 0 {
            assert(aligned % line == 0 && optimal < aligned <= optimal + line) by (nonlinear_arith)
                requires
                    aligned == (optimal / line + 1) * line,
                    line > 0,
                    optimal % line != 0,
            ;
        }
        assert(aligned <= u64::MAX);
        assert(aligned as u64 == aligned);
        assert(line as u64 == line);
    }
}

} // verus!

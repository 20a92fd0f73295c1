//! The release-path budget gate: every measured top-level invocation must
//! stay under the documented CPU-instruction and memory ceilings.

use vstd::prelude::*;

verus! {

/// Ceiling on the CPU instructions of one release-path invocation
/// (the Soroban per-transaction instruction limit).
pub const WORST_CASE_RELEASE_CPU_INSNS_CEILING: u64 = 100_000_000;

/// Ceiling on the memory bytes of one release-path invocation
/// (the Soroban per-transaction memory limit, 40 MiB).
pub const WORST_CASE_RELEASE_MEM_BYTES_CEILING: u64 = 41_943_040;

/// Tally of measured CPU and memory for one top-level invocation.
pub struct Measured {
    pub cpu_insns: u64,
    pub mem_bytes: u64,
}

/// Which documented ceiling a measurement broke, with the measured value.
pub enum BudgetExceeded {
    /// CPU instructions reached or passed their ceiling.
    CpuInstructions { what: String, measured: u64, ceiling: u64 },
    /// Memory bytes reached or passed their ceiling.
    MemoryBytes { what: String, measured: u64, ceiling: u64 },
}

/// Whether a measurement lies strictly under both ceilings.
pub open spec fn within_budget(cpu_insns: u64, mem_bytes: u64) -> bool {
    cpu_insns < WORST_CASE_RELEASE_CPU_INSNS_CEILING && mem_bytes < WORST_CASE_RELEASE_MEM_BYTES_CEILING
}

/// Checks the measurement `m` of the invocation named `what` against the
/// documented ceilings without failing. The CPU ceiling is checked first; the
/// first ceiling reached or passed is reported with the measured value.
pub fn check_within_budget(what: &str, m: &Measured) -> (r: Result<(), BudgetExceeded>)
    ensures
        r is Ok <==> within_budget(m.cpu_insns, m.mem_bytes),
        m.cpu_insns >= WORST_CASE_RELEASE_CPU_INSNS_CEILING ==> (r matches Err(
            BudgetExceeded::CpuInstructions { what: w, measured, ceiling },
        ) && w@ == what@ && measured == m.cpu_insns && ceiling
            == WORST_CASE_RELEASE_CPU_INSNS_CEILING),
        m.cpu_insns < WORST_CASE_RELEASE_CPU_INSNS_CEILING && m.mem_bytes
            >= WORST_CASE_RELEASE_MEM_BYTES_CEILING ==> (r matches Err(
            BudgetExceeded::MemoryBytes { what: w, measured, ceiling },
        ) && w@ == what@ && measured == m.mem_bytes && ceiling
            == WORST_CASE_RELEASE_MEM_BYTES_CEILING),
{
    if m.cpu_insns >= WORST_CASE_RELEASE_CPU_INSNS_CEILING {
        return Err(
            BudgetExceeded::CpuInstructions {
                what: what.to_owned(),
                measured: m.cpu_insns,
                ceiling: WORST_CASE_RELEASE_CPU_INSNS_CEILING,
            },
        );
    }
    if m.mem_bytes >= WORST_CASE_RELEASE_MEM_BYTES_CEILING {
        return Err(
            BudgetExceeded::MemoryBytes {
                what: what.to_owned(),
                measured: m.mem_bytes,
                ceiling: WORST_CASE_RELEASE_MEM_BYTES_CEILING,
            },
        );
    }
    Ok(())
}

/// The budget gate of the release path: a measurement of the invocation
/// named `what` may pass only when it lies strictly under both documented
/// ceilings, so a verified caller cannot go on past an over-budget
/// measurement. It leaves `m` unchanged. Callers that cannot prove the bound
/// test it first with [`check_within_budget`] and fail on its error.
pub fn assert_within_budget(what: &str, m: &Measured)
    requires
        m.cpu_insns < WORST_CASE_RELEASE_CPU_INSNS_CEILING,
        m.mem_bytes < WORST_CASE_RELEASE_MEM_BYTES_CEILING,
{
    let checked = check_within_budget(what, m);
    assert(checked is Ok);
}

} // verus!

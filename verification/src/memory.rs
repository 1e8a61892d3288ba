//! Memory Sizing Advisor: maps (engine identity, column-family identity) to a
//! cache-size recommendation derived from total host memory.
//!
//! The host-memory total is injected as a parameter so that the advice is a
//! pure function; the one place that queries the host is kept apart.

use vstd::prelude::*;

use crate::units::MB;

verus! {

/// Floor of the main engine's lock column-family cache.
pub const LOCKCF_MIN_MEM: u64 = 256 * 1024 * 1024;

/// Ceiling of the main engine's lock column-family cache.
pub const LOCKCF_MAX_MEM: u64 = 1024 * 1024 * 1024;

/// Floor of the consensus-log engine's default column-family cache.
pub const RAFT_MIN_MEM: u64 = 256 * 1024 * 1024;

/// Ceiling of the consensus-log engine's default column-family cache.
pub const RAFT_MAX_MEM: u64 = 2 * 1024 * 1024 * 1024;

/// The identity of a column family within an engine.
#[derive(Debug, Clone, Copy, PartialEq, Eq, Structural)]
pub enum CfName {
    Default,
    Lock,
    Write,
    Raft,
}

/// The (engine, column family) pairs for which cache advice is meaningful.
pub open spec fn spec_advised_cf(is_raft_db: bool, cf: CfName) -> bool {
    if is_raft_db {
        cf == CfName::Default
    } else {
        cf != CfName::Raft
    }
}

/// The advised cache size in whole megabytes: a fixed percentage of total
/// host memory, clamped to the pair's floor and ceiling.
pub open spec fn spec_memory_mb_for_cf(total_mem_bytes: u64, is_raft_db: bool, cf: CfName) -> u64 {
    let pct: int = if is_raft_db {
        2
    } else if cf == CfName::Default {
        25
    } else if cf == CfName::Lock {
        2
    } else {
        15
    };
    let floor: int = if is_raft_db {
        RAFT_MIN_MEM as int
    } else if cf == CfName::Lock {
        LOCKCF_MIN_MEM as int
    } else {
        0
    };
    let ceiling: int = if is_raft_db {
        RAFT_MAX_MEM as int
    } else if cf == CfName::Lock {
        LOCKCF_MAX_MEM as int
    } else {
        u64::MAX as int
    };
    let raw: int = total_mem_bytes * pct / 100;
    let clamped: int = if raw < floor {
        floor
    } else if raw > ceiling {
        ceiling
    } else {
        raw
    };
    (clamped / (MB as int)) as u64
}

/// Computes the advised cache size for a column family.
///
/// Consensus-log default gets 2% within [256MB, 2GB]; main-engine default
/// 25% unclamped; main-engine lock 2% within [256MB, 1GB]; main-engine
/// write 15% unclamped. Any other pair is not meaningful.
pub fn memory_mb_for_cf(total_mem_bytes: u64, is_raft_db: bool, cf: CfName) -> (r: u64)
    requires
        spec_advised_cf(is_raft_db, cf),
    ensures
        r == spec_memory_mb_for_cf(total_mem_bytes, is_raft_db, cf),
{
    let (pct, floor, ceiling): (u64, u64, u64) = match (is_raft_db, cf) {
        (true, CfName::Default) => (2, RAFT_MIN_MEM, RAFT_MAX_MEM),
        (false, CfName::Default) => (25, 0, u64::MAX),
        (false, CfName::Lock) => (2, LOCKCF_MIN_MEM, LOCKCF_MAX_MEM),
        (false, CfName::Write) => (15, 0, u64::MAX),
        _ => {
            proof {
                assert(false);
            }
            (0, 0, 0)
        },
    };
    proof {
        let p: u128 = total_mem_bytes as u128;
        assert(p * pct as u128 <= u128::MAX) by (nonlinear_arith)
            requires
                p <= u64::MAX as u128,
                pct as u128 <= 100,
        ;
    }
    let raw: u128 = total_mem_bytes as u128 * pct as u128 / 100;
    let clamped: u128 = if raw < floor as u128 {
        floor as u128
    } else if raw > ceiling as u128 {
        ceiling as u128
    } else {
        raw
    };
    (clamped / MB as u128) as u64
}

/// For the consensus-log engine's default column family the recommendation is
/// clamped: exactly 256MB when two percent of host memory is below that
/// floor, and exactly 2GB when it is above that ceiling.
pub proof fn lemma_raft_default_cf_cache_clamped(total_mem_bytes: u64)
    ensures
        total_mem_bytes * 2 / 100 < RAFT_MIN_MEM ==> spec_memory_mb_for_cf(
            total_mem_bytes,
            true,
            CfName::Default,
        ) == 256,
        total_mem_bytes * 2 / 100 > RAFT_MAX_MEM ==> spec_memory_mb_for_cf(
            total_mem_bytes,
            true,
            CfName::Default,
        ) == 2048,
{
}

/// The advised megabyte count, converted back to bytes, fits in 64 bits.
pub proof fn lemma_memory_mb_fits(total_mem_bytes: u64, is_raft_db: bool, cf: CfName)
    ensures
        spec_memory_mb_for_cf(total_mem_bytes, is_raft_db, cf) * MB <= u64::MAX,
{
    let pct: int = if is_raft_db {
        2
    } else if cf == CfName::Default {
        25
    } else if cf == CfName::Lock {
        2
    } else {
        15
    };
    let floor: int = if is_raft_db {
        RAFT_MIN_MEM as int
    } else if cf == CfName::Lock {
        LOCKCF_MIN_MEM as int
    } else {
        0
    };
    let ceiling: int = if is_raft_db {
        RAFT_MAX_MEM as int
    } else if cf == CfName::Lock {
        LOCKCF_MAX_MEM as int
    } else {
        u64::MAX as int
    };
    let raw: int = total_mem_bytes * pct / 100;
    let clamped: int = if raw < floor {
        floor
    } else if raw > ceiling {
        ceiling
    } else {
        raw
    };
    assert(total_mem_bytes * pct >= 0) by (nonlinear_arith)
        requires
            total_mem_bytes >= 0,
            pct >= 0,
    ;
    vstd::arithmetic::div_mod::lemma_div_of0(100);
    vstd::arithmetic::div_mod::lemma_div_is_ordered(0, total_mem_bytes * pct, 100);
    assert(0 <= clamped <= u64::MAX);
    let q = clamped / (MB as int);
    vstd::arithmetic::div_mod::lemma_fundamental_div_mod(clamped, MB as int);
    vstd::arithmetic::div_mod::lemma_mod_pos_bound(clamped, MB as int);
    vstd::arithmetic::div_mod::lemma_div_of0(MB as int);
    vstd::arithmetic::div_mod::lemma_div_is_ordered(0, clamped, MB as int);
    assert(q * (MB as int) <= clamped);
    assert(q <= q * (MB as int)) by (nonlinear_arith)
        requires
            q >= 0,
    ;
}

/// Relies on `sys_info::mem_info`: the total physical memory of the host, in
/// kilobytes. The value depends on the machine the process runs on, so
/// nothing is promised of it; a failed query yields `None`.
#[verifier::external_body]
fn host_mem_total_kb() -> Option<u64> {
    sys_info::mem_info().ok().map(|m| m.total)
}

/// Queries the host once for its total memory in bytes. `None` when the
/// query fails or the byte count does not fit in 64 bits.
pub fn host_memory_total_bytes() -> Option<u64> {
    match host_mem_total_kb() {
        None => None,
        Some(kb_total) => kb_total.checked_mul(1024),
    }
}

} // verus!

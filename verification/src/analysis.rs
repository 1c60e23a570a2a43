//! Metaspace estimation: turns the workload profile into a recommended
//! metaspace budget in MB.
//!
//! The estimate starts from a fixed base, scales it by a complexity
//! multiplier, adds a step increment per 1000 expected connections and a
//! non-linear file-size increment, multiplies by a safety margin chosen from
//! the average file size, and clamps the result to
//! [`MIN_METASPACE_MB`, `MAX_METASPACE_MB`].
//!
//! Multipliers are carried as tenths (a factor of 1.3 is the integer 13),
//! sizes in tenths of MB ("dMB") until the final rounding to whole MB.

pub mod limits;
pub mod performance;
pub mod safety;

use vstd::prelude::*;

use crate::args::{bounded_args, Args, Complexity};

pub use safety::{calculate_safety, SafetyAnalysis, Scenario};

verus! {

/// Base metaspace size, in tenths of MB (256 MB).
pub const BASE_METASPACE_DMB: u64 = 2560;
/// Metaspace increment per 1000 expected connections, in tenths of MB (30 MB).
pub const CONNECTION_FACTOR_DMB: u64 = 300;
/// Metaspace increment per full 100 MB of average file size, in MB.
pub const FILE_SIZE_FACTOR_MB: u64 = 20;
/// Metaspace per worker thread, in tenths of MB (1 MB).
pub const THREAD_FACTOR_DMB: u64 = 10;
/// Lower clamp of the recommendation, in MB.
pub const MIN_METASPACE_MB: u64 = 128;
/// Upper clamp of the recommendation, in MB.
pub const MAX_METASPACE_MB: u64 = 3072;
/// Connection-count step that triggers one connection increment.
pub const CONNECTIONS_BASE: u64 = 1000;

/// Complexity multiplier, in tenths: high-complexity applications 1.5,
/// low 0.8, medium exactly 1.0. File size plays no part here: it is
/// accounted for by the file-size increment and the safety margin.
pub open spec fn spec_complexity_factor_tenths(complexity: Complexity) -> int {
    match complexity {
        Complexity::High => 15,
        Complexity::Low => 8,
        Complexity::Medium => 10,
    }
}

/// Safety margin, in tenths: 1.5 for very large files (over 100 MB),
/// 1.4 for large files (over 50 MB), 1.3 otherwise.
pub open spec fn spec_safety_margin_tenths(avg_file_size: int) -> int {
    if avg_file_size > 100 {
        15
    } else if avg_file_size > 50 {
        14
    } else {
        13
    }
}

/// Base metaspace in tenths of MB: the fixed base scaled by the complexity
/// multiplier, plus one MB for each of the `2 * cpu_cores` worker threads an
/// I/O-bound application typically runs.
pub open spec fn spec_base_metaspace_dmb(a: Args) -> int {
    (BASE_METASPACE_DMB * spec_complexity_factor_tenths(a.complexity)) / 10 + 2 * a.cpu_cores
        * THREAD_FACTOR_DMB
}

/// Connection-count increment in tenths of MB: 30 MB per full 1000 expected
/// connections.
pub open spec fn spec_connection_factor_dmb(expected_connections: int) -> int {
    (expected_connections / CONNECTIONS_BASE as int) * CONNECTION_FACTOR_DMB
}

/// The nearest integer to `10 * ln(avg_file_size)`, defined for file sizes
/// in (10, 100]: the logarithmic metaspace increment for medium files, in MB.
pub open spec fn spec_log_increment_mb(avg_file_size: int) -> int {
    if avg_file_size < 12 {
        24
    } else if avg_file_size < 13 {
        25
    } else if avg_file_size < 15 {
        26
    } else if avg_file_size < 16 {
        27
    } else if avg_file_size < 18 {
        28
    } else if avg_file_size < 20 {
        29
    } else if avg_file_size < 22 {
        30
    } else if avg_file_size < 24 {
        31
    } else if avg_file_size < 26 {
        32
    } else if avg_file_size < 29 {
        33
    } else if avg_file_size < 32 {
        34
    } else if avg_file_size < 35 {
        35
    } else if avg_file_size < 39 {
        36
    } else if avg_file_size < 43 {
        37
    } else if avg_file_size < 47 {
        38
    } else if avg_file_size < 52 {
        39
    } else if avg_file_size < 58 {
        40
    } else if avg_file_size < 64 {
        41
    } else if avg_file_size < 71 {
        42
    } else if avg_file_size < 78 {
        43
    } else if avg_file_size < 86 {
        44
    } else if avg_file_size < 95 {
        45
    } else {
        46
    }
}

/// File-size increment in MB: small files (at most 10 MB) contribute a fixed
/// 20 MB, medium files (at most 100 MB) a logarithmic increment, large files
/// a linear but decelerating increment of 20 MB per full 100 MB.
pub open spec fn spec_file_size_factor_mb(avg_file_size: int) -> int {
    if avg_file_size <= 10 {
        20
    } else if avg_file_size <= 100 {
        spec_log_increment_mb(avg_file_size)
    } else {
        (avg_file_size / 100) * FILE_SIZE_FACTOR_MB
    }
}

/// The recommended metaspace size in MB: the base, connection and file-size
/// contributions are summed, floored at [`MIN_METASPACE_MB`], scaled by the
/// safety margin, capped at [`MAX_METASPACE_MB`], and rounded up to a whole
/// MB.
pub open spec fn spec_metaspace_mb(a: Args) -> int {
    let raw_dmb = spec_base_metaspace_dmb(a) + spec_connection_factor_dmb(
        a.expected_connections as int,
    ) + 10 * spec_file_size_factor_mb(a.avg_file_size as int);
    let floored_dmb = if raw_dmb > 10 * MIN_METASPACE_MB {
        raw_dmb
    } else {
        10 * MIN_METASPACE_MB
    };
    let margin_cmb = floored_dmb * spec_safety_margin_tenths(a.avg_file_size as int);
    let capped_cmb = if margin_cmb < 100 * MAX_METASPACE_MB {
        margin_cmb
    } else {
        100 * MAX_METASPACE_MB
    };
    (capped_cmb + 99) / 100
}

/// Complexity multiplier for the profile, in tenths.
pub fn get_complexity_factor(a: &Args) -> (r: u64)
    ensures
        r == spec_complexity_factor_tenths(a.complexity),
        8 <= r <= 15,
{
    match a.complexity {
        Complexity::High => 15,
        Complexity::Low => 8,
        Complexity::Medium => 10,
    }
}

/// Safety margin for the profile, in tenths.
pub fn get_safety_margin(a: &Args) -> (r: u64)
    ensures
        r == spec_safety_margin_tenths(a.avg_file_size as int),
        13 <= r <= 15,
{
    if a.avg_file_size > 100 {
        15
    } else if a.avg_file_size > 50 {
        14
    } else {
        13
    }
}

/// Base metaspace for the profile, in tenths of MB.
pub fn calculate_base_metaspace(a: &Args) -> (r: u64)
    requires
        bounded_args(*a),
    ensures
        r == spec_base_metaspace_dmb(*a),
{
    let factor = get_complexity_factor(a);
    BASE_METASPACE_DMB * factor / 10 + 2 * a.cpu_cores * THREAD_FACTOR_DMB
}

/// Connection-count increment for the profile, in tenths of MB.
pub fn calculate_connection_factor(a: &Args) -> (r: u64)
    requires
        bounded_args(*a),
    ensures
        r == spec_connection_factor_dmb(a.expected_connections as int),
{
    (a.expected_connections / CONNECTIONS_BASE) * CONNECTION_FACTOR_DMB
}

/// File-size increment for the profile, in MB.
pub fn calculate_file_size_factor(a: &Args) -> (r: u64)
    requires
        bounded_args(*a),
    ensures
        r == spec_file_size_factor_mb(a.avg_file_size as int),
{
    let fs = a.avg_file_size;
    if fs <= 10 {
        20
    } else if fs <= 100 {
        if fs < 12 {
            24
        } else if fs < 13 {
            25
        } else if fs < 15 {
            26
        } else if fs < 16 {
            27
        } else if fs < 18 {
            28
        } else if fs < 20 {
            29
        } else if fs < 22 {
            30
        } else if fs < 24 {
            31
        } else if fs < 26 {
            32
        } else if fs < 29 {
            33
        } else if fs < 32 {
            34
        } else if fs < 35 {
            35
        } else if fs < 39 {
            36
        } else if fs < 43 {
            37
        } else if fs < 47 {
            38
        } else if fs < 52 {
            39
        } else if fs < 58 {
            40
        } else if fs < 64 {
            41
        } else if fs < 71 {
            42
        } else if fs < 78 {
            43
        } else if fs < 86 {
            44
        } else if fs < 95 {
            45
        } else {
            46
        }
    } else {
        (fs / 100) * FILE_SIZE_FACTOR_MB
    }
}

/// The recommended metaspace size in MB, always inside
/// [[`MIN_METASPACE_MB`], [`MAX_METASPACE_MB`]].
pub fn calculate_metaspace(a: &Args) -> (r: i32)
    requires
        bounded_args(*a),
    ensures
        r == spec_metaspace_mb(*a),
        MIN_METASPACE_MB <= r <= MAX_METASPACE_MB,
{
    let base = calculate_base_metaspace(a);
    let connection_factor = calculate_connection_factor(a);
    let file_size_factor = calculate_file_size_factor(a);
    let raw_dmb = base + connection_factor + 10 * file_size_factor;
    let floored_dmb = if raw_dmb > 10 * MIN_METASPACE_MB {
        raw_dmb
    } else {
        10 * MIN_METASPACE_MB
    };
    let margin_cmb = floored_dmb * get_safety_margin(a);
    let capped_cmb = if margin_cmb < 100 * MAX_METASPACE_MB {
        margin_cmb
    } else {
        100 * MAX_METASPACE_MB
    };
    ((capped_cmb + 99) / 100) as i32
}

} // verus!

//! The measurements the harness reports for one run: CPU times, wall-clock
//! duration, the child's own peak resident set, and the control group's
//! aggregated peak memory.

use vstd::prelude::*;

verus! {

/// `x` clamped into the `u64` range.
pub open spec fn clamp_u64(x: int) -> u64 {
    if x < 0 {
        0u64
    } else if x > u64::MAX {
        u64::MAX
    } else {
        x as u64
    }
}

/// `x` with a negative value read as zero. OS accounting never reports
/// negative times or sizes; a driver that hands one in is clamped, not
/// trusted.
pub open spec fn nneg(x: i64) -> int {
    if x < 0 {
        0
    } else {
        x as int
    }
}

/// A seconds/microseconds pair as nanoseconds, clamped into `u64`.
pub open spec fn timeval_ns(sec: i64, usec: i64) -> u64 {
    clamp_u64(nneg(sec) * 1_000_000_000 + nneg(usec) * 1000)
}

/// A resident-set high-water mark in KiB as bytes, clamped into `u64`.
pub open spec fn rss_bytes(maxrss_kib: i64) -> u64 {
    clamp_u64(nneg(maxrss_kib) * 1024)
}

/// The child has terminated normally (rather than on a signal) when the low
/// seven bits of its wait status are clear.
pub open spec fn wait_exited(status: i32) -> bool {
    status & 0x7f == 0
}

/// The exit status a normally terminated child carried, taken from bits eight
/// to fifteen of its wait status.
pub open spec fn wait_exit_code(status: i32) -> i32 {
    (status >> 8) & 0xff
}

/// The status the harness itself exits with: the distinguished
/// could-not-start status when the child terminated with it, and zero
/// otherwise.
pub open spec fn report_exit_code(status: i32) -> i32 {
    if wait_exited(status) && wait_exit_code(status) == 127 {
        127
    } else {
        0
    }
}

/// Decides whether a wait status reports normal termination.
pub fn exited(status: i32) -> (r: bool)
    ensures
        r == wait_exited(status),
{
    status & 0x7f == 0
}

/// Reads the exit status out of a wait status.
pub fn exit_code(status: i32) -> (r: i32)
    ensures
        r == wait_exit_code(status),
{
    (status >> 8) & 0xff
}

/// Computes the harness's own exit status from the child's wait status.
pub fn harness_exit_code(status: i32) -> (r: i32)
    ensures
        r == report_exit_code(status),
{
    if exited(status) && exit_code(status) == 127 {
        127
    } else {
        0
    }
}

/// Converts one rusage time value to nanoseconds.
fn timeval_to_ns(sec: i64, usec: i64) -> (r: u64)
    ensures
        r == timeval_ns(sec, usec),
{
    let s: u128 = if sec < 0 {
        0
    } else {
        sec as u128
    };
    let u: u128 = if usec < 0 {
        0
    } else {
        usec as u128
    };
    proof {
        assert(s * 1_000_000_000 <= 0x7fff_ffff_ffff_ffff * 1_000_000_000) by (nonlinear_arith)
            requires
                s <= 0x7fff_ffff_ffff_ffff,
        {}
        assert(u * 1000 <= 0x7fff_ffff_ffff_ffff * 1000) by (nonlinear_arith)
            requires
                u <= 0x7fff_ffff_ffff_ffff,
        {}
    }
    let total: u128 = s * 1_000_000_000 + u * 1000;
    if total > u64::MAX as u128 {
        u64::MAX
    } else {
        total as u64
    }
}

/// Converts the rusage resident-set high-water mark (KiB) to bytes.
fn maxrss_to_bytes(maxrss_kib: i64) -> (r: u64)
    ensures
        r == rss_bytes(maxrss_kib),
{
    let k: u128 = if maxrss_kib < 0 {
        0
    } else {
        maxrss_kib as u128
    };
    proof {
        assert(k * 1024 <= 0x7fff_ffff_ffff_ffff * 1024) by (nonlinear_arith)
            requires
                k <= 0x7fff_ffff_ffff_ffff,
        {}
    }
    let b: u128 = k * 1024;
    if b > u64::MAX as u128 {
        u64::MAX
    } else {
        b as u64
    }
}

/// What one run measured. Times are nanoseconds; memory sizes are bytes.
#[derive(Clone, Copy, PartialEq, Eq, Structural, Debug)]
pub struct ChildProcessResult {
    /// CPU time the child and its reaped descendants spent in user mode.
    pub child_user_ns: u64,
    /// CPU time the child and its reaped descendants spent in the kernel.
    pub child_sys_ns: u64,
    /// Wall-clock time between process creation and reaping.
    pub child_wall_ns: u64,
    /// The child's resident-set high-water mark from OS accounting.
    pub child_rss_highwater: u64,
    /// The leaf group's peak-memory counter: the maximum combined resident
    /// memory of everything ever run inside the leaf subtree.
    pub cg_rss_highwater: u64,
}

impl ChildProcessResult {
    /// Builds the report from what the wait retrieved and what the peak
    /// counter held.
    pub fn from_wait(
        utime_sec: i64,
        utime_usec: i64,
        stime_sec: i64,
        stime_usec: i64,
        maxrss_kib: i64,
        wall_ns: u64,
        cg_peak_bytes: u64,
    ) -> (r: Self)
        ensures
            r == Self::from_wait_spec(
                utime_sec,
                utime_usec,
                stime_sec,
                stime_usec,
                maxrss_kib,
                wall_ns,
                cg_peak_bytes,
            ),
    {
        ChildProcessResult {
            child_user_ns: timeval_to_ns(utime_sec, utime_usec),
            child_sys_ns: timeval_to_ns(stime_sec, stime_usec),
            child_wall_ns: wall_ns,
            child_rss_highwater: maxrss_to_bytes(maxrss_kib),
            cg_rss_highwater: cg_peak_bytes,
        }
    }

    /// The report owed for given wait results and peak-counter value.
    pub open spec fn from_wait_spec(
        utime_sec: i64,
        utime_usec: i64,
        stime_sec: i64,
        stime_usec: i64,
        maxrss_kib: i64,
        wall_ns: u64,
        cg_peak_bytes: u64,
    ) -> Self {
        ChildProcessResult {
            child_user_ns: timeval_ns(utime_sec, utime_usec),
            child_sys_ns: timeval_ns(stime_sec, stime_usec),
            child_wall_ns: wall_ns,
            child_rss_highwater: rss_bytes(maxrss_kib),
            cg_rss_highwater: cg_peak_bytes,
        }
    }

    /// The child's resident-set high-water mark in whole KiB.
    pub fn child_rss_kib(&self) -> (r: u64)
        ensures
            r == self.child_rss_highwater / 1024,
    {
        self.child_rss_highwater / 1024
    }

    /// The control group's peak memory in whole KiB.
    pub fn cg_rss_kib(&self) -> (r: u64)
        ensures
            r == self.cg_rss_highwater / 1024,
    {
        self.cg_rss_highwater / 1024
    }
}

/// Reported user, system and wall times are never negative, whatever values
/// the OS accounting handed in.
pub proof fn lemma_reported_times_nonnegative(
    utime_sec: i64,
    utime_usec: i64,
    stime_sec: i64,
    stime_usec: i64,
    maxrss_kib: i64,
    wall_ns: u64,
    cg_peak_bytes: u64,
)
    ensures
        ({
            let r = ChildProcessResult::from_wait_spec(
                utime_sec,
                utime_usec,
                stime_sec,
                stime_usec,
                maxrss_kib,
                wall_ns,
                cg_peak_bytes,
            );
            r.child_user_ns >= 0 && r.child_sys_ns >= 0 && r.child_wall_ns >= 0
        }),
{
}

} // verus!

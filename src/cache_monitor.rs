//! Measuring the cache and classifying its size into tiers.

use vstd::prelude::*;

use crate::clock::current_timestamp;
use crate::dir_scan::{saturated, ScanTotals};
use crate::path_guard::{cache_path_under, get_safe_cache_path};
use crate::text::{decimal, decimal_string, zero_padded, zero_padded_string};

verus! {

pub const KIB: u64 = 1024;

pub const MIB: u64 = 1048576;

pub const GIB: u64 = 1073741824;

/// Sizes from this many bytes on are shown in gigabytes (1000 MiB, not 1024).
pub const GB_DISPLAY_THRESHOLD: u64 = 1048576000;

/// Sizes from 5 GiB on are a warning.
pub const WARNING_THRESHOLD: u64 = 5368709120;

/// Sizes from 10 GiB on are critical.
pub const CRITICAL_THRESHOLD: u64 = 10737418240;

/// Health tier of the cache, a function of its size alone.
#[derive(Debug, Clone, Copy, PartialEq, Eq, Structural)]
pub enum CacheState {
    Normal,
    Warning,
    Critical,
}

/// The tier of a cache of `size` bytes: a threshold itself belongs to the higher tier.
pub open spec fn tier(size: nat) -> CacheState {
    if size >= CRITICAL_THRESHOLD {
        CacheState::Critical
    } else if size >= WARNING_THRESHOLD {
        CacheState::Warning
    } else {
        CacheState::Normal
    }
}

/// The lower-case name of a tier.
pub open spec fn tier_name(s: CacheState) -> Seq<char> {
    match s {
        CacheState::Normal => "normal"@,
        CacheState::Warning => "warning"@,
        CacheState::Critical => "critical"@,
    }
}

impl CacheState {
    pub fn from_size(size_bytes: u64) -> (r: CacheState)
        ensures
            r == tier(size_bytes as nat),
    {
        if size_bytes >= CRITICAL_THRESHOLD {
            CacheState::Critical
        } else if size_bytes >= WARNING_THRESHOLD {
            CacheState::Warning
        } else {
            CacheState::Normal
        }
    }

    pub fn as_str(&self) -> (r: &'static str)
        ensures
            r@ == tier_name(*self),
    {
        match self {
            CacheState::Normal => "normal",
            CacheState::Warning => "warning",
            CacheState::Critical => "critical",
        }
    }
}

/// A size in tenths of a GiB, rounded to the nearest tenth, halves up.
pub open spec fn gib_tenths(bytes: nat) -> nat {
    ((bytes * 10 + GIB / 2) / (GIB as int)) as nat
}

/// A number of tenths written with one decimal place, the place left out when it is zero.
pub open spec fn tenths_text(t: nat) -> Seq<char> {
    if t % 10 == 0 {
        decimal(t / 10)
    } else {
        decimal(t / 10) + "."@ + decimal(t % 10)
    }
}

/// Human-readable size: GB from 1000 MiB on (one decimal, omitted when whole),
/// whole MB from 1 MiB, whole KB from 1 KiB, else bytes.
pub open spec fn size_text(bytes: nat) -> Seq<char> {
    if bytes >= GB_DISPLAY_THRESHOLD {
        tenths_text(gib_tenths(bytes)) + " GB"@
    } else if bytes >= MIB {
        decimal(bytes / (MIB as nat)) + " MB"@
    } else if bytes >= KIB {
        decimal(bytes / (KIB as nat)) + " KB"@
    } else {
        decimal(bytes) + " B"@
    }
}

/// Computes `gib_tenths` without overflow.
fn gib_tenths_of(bytes: u64) -> (t: u64)
    ensures
        t as nat == gib_tenths(bytes as nat),
{
    let q = bytes / GIB;
    let r = bytes % GIB;
    let t = q * 10 + (r * 10 + GIB / 2) / GIB;
    proof {
        let x = bytes as int * 10 + GIB / 2;
        let rest = r as int * 10 + GIB / 2;
        assert(bytes as int == q as int * GIB + r as int);
        assert(x == (q as int * 10) * GIB + rest) by (nonlinear_arith)
            requires
                bytes as int == q as int * GIB + r as int,
                x == bytes as int * 10 + GIB / 2,
                rest == r as int * 10 + GIB / 2,
        ;
        let rq = rest / (GIB as int);
        let rr = rest % (GIB as int);
        assert(rest == rq * GIB + rr);
        assert(x == (q as int * 10 + rq) * GIB + rr) by (nonlinear_arith)
            requires
                x == (q as int * 10) * GIB + rest,
                rest == rq * GIB + rr,
        ;
        vstd::arithmetic::div_mod::lemma_fundamental_div_mod_converse(
            x,
            GIB as int,
            q as int * 10 + rq,
            rr,
        );
    }
    t
}

/// Format bytes into a human-readable string.
pub fn format_size(bytes: u64) -> (r: String)
    ensures
        r@ == size_text(bytes as nat),
{
    if bytes >= GB_DISPLAY_THRESHOLD {
        let t = gib_tenths_of(bytes);
        let mut s = decimal_string(t / 10);
        if t % 10 != 0 {
            s.append(".");
            let frac = decimal_string(t % 10);
            s.append(frac.as_str());
        }
        s.append(" GB");
        s
    } else if bytes >= MIB {
        let mut s = decimal_string(bytes / MIB);
        s.append(" MB");
        s
    } else if bytes >= KIB {
        let mut s = decimal_string(bytes / KIB);
        s.append(" KB");
        s
    } else {
        let mut s = decimal_string(bytes);
        s.append(" B");
        s
    }
}

/// `n` in decimal with a comma between each group of three digits from the right.
pub open spec fn with_commas(n: nat) -> Seq<char>
    decreases n,
{
    if n < 1000 {
        decimal(n)
    } else {
        with_commas(n / 1000) + ","@ + zero_padded(n % 1000, 3)
    }
}

/// Add commas to numbers (1250 becomes "1,250").
pub fn format_with_commas(n: u64) -> (r: String)
    ensures
        r@ == with_commas(n as nat),
    decreases n,
{
    if n < 1000 {
        decimal_string(n)
    } else {
        let mut s = format_with_commas(n / 1000);
        s.append(",");
        let group = zero_padded_string(n % 1000, 3);
        s.append(group.as_str());
        s
    }
}

/// The user-level cache below `home`, or below `/Users` when there is no home directory.
pub fn get_cache_path(home: Option<&str>) -> (r: String)
    ensures
        home matches Some(h) ==> r@ == cache_path_under(h@),
        home is None ==> r@ == cache_path_under("/Users"@),
{
    match home {
        Some(h) => get_safe_cache_path(h),
        None => get_safe_cache_path("/Users"),
    }
}

/// The system-level copy of the cache, which needs elevated privileges to read.
pub fn get_system_cache_path() -> (r: String)
    ensures
        r@ == "/System/Library/Caches/com.apple.coresymbolicationd"@,
{
    String::from_str("/System/Library/Caches/com.apple.coresymbolicationd")
}

/// A snapshot of the cache's footprint.
#[derive(Debug, Clone)]
pub struct CacheStatus {
    pub size_bytes: u64,
    pub size_display: String,
    pub state: CacheState,
    pub path: String,
    pub exists: bool,
    pub file_count: u64,
    pub last_checked: u64,
}

/// `s` reports a cache of `size` bytes and `files` files at `path`; only the
/// time of the measurement is left open.
pub open spec fn reports(
    s: CacheStatus,
    size: nat,
    files: nat,
    path: Seq<char>,
    exists: bool,
) -> bool {
    &&& s.size_bytes == size
    &&& s.size_display@ == size_text(size)
    &&& s.state == tier(size)
    &&& s.path@ == path
    &&& s.exists == exists
    &&& s.file_count == files
}

fn status_at(size_bytes: u64, file_count: u64, path: String, exists: bool, now: u64) -> (r:
    CacheStatus)
    ensures
        reports(r, size_bytes as nat, file_count as nat, path@, exists),
        r.last_checked == now,
{
    CacheStatus {
        size_bytes,
        size_display: format_size(size_bytes),
        state: CacheState::from_size(size_bytes),
        path,
        exists,
        file_count,
        last_checked: now,
    }
}

/// The status of the cache at `path`, given what a scan of it measured
/// (`None` when the directory does not exist).
pub fn get_cache_status(path: String, measured: Option<ScanTotals>) -> (r: CacheStatus)
    ensures
        measured is None ==> reports(r, 0, 0, path@, false),
        measured matches Some(m) ==> reports(
            r,
            m.size_bytes as nat,
            m.file_count as nat,
            path@,
            true,
        ),
{
    let now = current_timestamp();
    match measured {
        None => status_at(0, 0, path, false, now),
        Some(m) => status_at(m.size_bytes, m.file_count, path, true, now),
    }
}

/// The user-level status with the size of the system-level cache added in
/// (`None` when that copy does not exist or cannot be read). The tier is
/// taken on the sum; the path, existence flag and file count stay the user's.
pub fn get_combined_cache_status(user_status: CacheStatus, system: Option<ScanTotals>) -> (r:
    CacheStatus)
    ensures
        reports(
            r,
            saturated(
                user_status.size_bytes + match system {
                    Some(m) => m.size_bytes as int,
                    None => 0,
                },
            ),
            user_status.file_count as nat,
            user_status.path@,
            user_status.exists,
        ),
        r.last_checked == user_status.last_checked,
{
    let system_size = match system {
        Some(m) => m.size_bytes,
        None => 0,
    };
    let total = user_status.size_bytes.saturating_add(system_size);
    status_at(
        total,
        user_status.file_count,
        user_status.path,
        user_status.exists,
        user_status.last_checked,
    )
}

/// A made-up status of `size_bytes` for trying the tiers out, with about one
/// file per MiB.
pub fn get_simulated_status(size_bytes: u64) -> (r: CacheStatus)
    ensures
        reports(r, size_bytes as nat, (size_bytes / MIB) as nat, "[Debug Mode]"@, true),
{
    let now = current_timestamp();
    status_at(size_bytes, size_bytes / MIB, String::from_str("[Debug Mode]"), true, now)
}

} // verus!

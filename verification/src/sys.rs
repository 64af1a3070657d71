//! Host probes, the retry schedule, and platform naming.

use vstd::arithmetic::power2::{
    lemma2_to64, lemma2_to64_rest, lemma_pow2_pos, lemma_pow2_strictly_increases, pow2,
};
use vstd::bits::lemma_u64_shl_is_mul;
use vstd::prelude::*;
use vstd::string::StringExecFns;

use crate::errors::{SetupError, SetupErrorView};
use crate::text;

verus! {

broadcast use vstd::seq::group_seq_axioms;

/// How many times a failing command is attempted before giving up.
pub const RETRY_ATTEMPTS: u32 = 3;

/// How long a freshness-cache entry stays fresh, in seconds (24 hours).
pub const CACHE_DURATION_SECS: u64 = 24 * 60 * 60;

/// The delay before the first retry, in milliseconds.
pub const BASE_DELAY_MS: u64 = 1000;

/// The backoff delay after `failures` failed attempts: the base delay
/// doubled for each failure beyond the first, saturating at `u64::MAX`.
pub open spec fn spec_delay_ms(failures: u32) -> u64 {
    let e = if failures == 0 {
        0nat
    } else {
        (failures - 1) as nat
    };
    if BASE_DELAY_MS * pow2(e) > u64::MAX {
        u64::MAX
    } else {
        (BASE_DELAY_MS * pow2(e)) as u64
    }
}

/// Compute the backoff delay in milliseconds after `failures` failed
/// attempts of one command.
pub fn delay_ms_for(failures: u32) -> (r: u64)
    ensures
        r == spec_delay_ms(failures),
{
    let e: u32 = if failures == 0 {
        0
    } else {
        failures - 1
    };
    proof {
        lemma2_to64();
        lemma2_to64_rest();
    }
    if e >= 55 {
        proof {
            if e > 55 {
                lemma_pow2_strictly_increases(55, e as nat);
            }
        }
        u64::MAX
    } else {
        proof {
            if e < 54 {
                lemma_pow2_strictly_increases(e as nat, 54);
            }
            lemma_u64_shl_is_mul(1u64, e as u64);
        }
        BASE_DELAY_MS * (1u64 << (e as u64))
    }
}

/// The backoff schedule never shrinks: a later retry waits at least as long
/// as an earlier one.
pub proof fn lemma_backoff_monotone(i: u32, j: u32)
    requires
        i <= j,
    ensures
        spec_delay_ms(i) <= spec_delay_ms(j),
{
    let ei = if i == 0 { 0nat } else { (i - 1) as nat };
    let ej = if j == 0 { 0nat } else { (j - 1) as nat };
    lemma_pow2_pos(ei);
    lemma_pow2_pos(ej);
    if ei < ej {
        lemma_pow2_strictly_increases(ei, ej);
    }
}

/// Whether an executable of the given name resolves on the search path.
///
/// Relies on `which::which`: it returns `Ok` exactly when the name resolves
/// to an executable on `PATH`. The answer depends on the host environment,
/// so nothing is promised of it.
#[verifier::external_body]
pub fn command_on_path(name: &str) -> bool {
    which::which(name).is_ok()
}

/// The current user's home directory, if the platform reports one.
///
/// Relies on `dirs::home_dir`; the answer depends on the host environment,
/// so nothing is promised of it.
#[verifier::external_body]
pub fn home_dir_string() -> Option<String> {
    dirs::home_dir().map(|p| p.to_string_lossy().into_owned())
}

/// One freshness record: the platform and package it covers, and when the
/// last successful install attempt happened, in seconds since the epoch.
#[derive(Debug)]
pub struct CacheEntry {
    pub platform: String,
    pub package: String,
    pub timestamp: u64,
}

impl View for CacheEntry {
    type V = (Seq<char>, Seq<char>, u64);

    open spec fn view(&self) -> (Seq<char>, Seq<char>, u64) {
        (self.platform@, self.package@, self.timestamp)
    }
}

impl DeepView for CacheEntry {
    type V = (Seq<char>, Seq<char>, u64);

    open spec fn deep_view(&self) -> (Seq<char>, Seq<char>, u64) {
        self.view()
    }
}

/// The mathematical value of a `PackageCache`: where it persists, and the
/// recorded entries in the order they were written.
#[verifier::ext_equal]
pub struct CacheView {
    pub dir: Seq<char>,
    pub entries: Seq<(Seq<char>, Seq<char>, u64)>,
}

/// The most recently recorded timestamp for `(os, package)`, if any.
pub open spec fn spec_lookup(
    entries: Seq<(Seq<char>, Seq<char>, u64)>,
    os: Seq<char>,
    package: Seq<char>,
) -> Option<u64>
    decreases entries.len(),
{
    if entries.len() == 0 {
        None
    } else if entries.last().0 == os && entries.last().1 == package {
        Some(entries.last().2)
    } else {
        spec_lookup(entries.drop_last(), os, package)
    }
}

/// A record made at `ts` is still fresh at `now`: less than the TTL has
/// passed. A record from the future counts as fresh.
pub open spec fn fresh_at(ts: u64, now: u64) -> bool {
    (now as int) < ts + CACHE_DURATION_SECS
}

/// The cache reports `(os, package)` fresh at `now`.
pub open spec fn spec_is_fresh(
    entries: Seq<(Seq<char>, Seq<char>, u64)>,
    os: Seq<char>,
    package: Seq<char>,
    now: u64,
) -> bool {
    match spec_lookup(entries, os, package) {
        Some(ts) => fresh_at(ts, now),
        None => false,
    }
}

/// The freshness window: once `(os, package)` was recorded at time `t`,
/// the cache reports it fresh at exactly the instants less than the TTL
/// after `t` — immediately after the update, and no longer once the clock
/// passes 24 hours beyond it.
pub proof fn lemma_freshness_window(
    entries: Seq<(Seq<char>, Seq<char>, u64)>,
    os: Seq<char>,
    package: Seq<char>,
    t: u64,
    now: u64,
)
    requires
        spec_lookup(entries, os, package) == Some(t),
    ensures
        spec_is_fresh(entries, os, package, now) <==> (now as int) < t + CACHE_DURATION_SECS,
{
}

/// The per-`(platform, package)` freshness store: a timestamp for the last
/// successful install attempt. Freshness is advisory only — it prevents
/// re-invoking the installer; it does not verify the package is present.
/// Persistence of the records under `cache_dir` is the caller's concern.
pub struct PackageCache {
    cache_dir: String,
    entries: Vec<CacheEntry>,
}

impl View for PackageCache {
    type V = CacheView;

    closed spec fn view(&self) -> CacheView {
        CacheView { dir: self.cache_dir@, entries: self.entries.deep_view() }
    }
}

impl PackageCache {
    /// An empty cache persisting under the given directory.
    pub fn with_cache_dir(cache_dir: String) -> (r: PackageCache)
        ensures
            r@.dir == cache_dir@,
            r@.entries =~= Seq::<(Seq<char>, Seq<char>, u64)>::empty(),
    {
        PackageCache { cache_dir, entries: Vec::new() }
    }

    /// An empty cache under `~/.cache/cypackages`. Fails when the platform
    /// reports no home directory; relies on the host environment, so the
    /// directory's exact location is not promised.
    pub fn new() -> (r: Result<PackageCache, SetupError>)
        ensures
            match r {
                Ok(c) => c@.entries =~= Seq::<(Seq<char>, Seq<char>, u64)>::empty(),
                Err(e) => e@ is CacheIoFailure,
            },
    {
        match home_dir_string() {
            Some(home) => {
                let mut dir = home;
                dir.append("/.cache/cypackages");
                Ok(PackageCache::with_cache_dir(dir))
            },
            None => Err(
                SetupError::CacheIoFailure { path: String::from_str("<home directory unknown>") },
            ),
        }
    }

    /// Where the entry for `(os, package)` is persisted:
    /// `<cache_dir>/<os>_<package>`.
    pub fn get_cache_path(&self, os: &str, package: &str) -> (r: String)
        ensures
            r@ == self@.dir + "/"@ + os@ + "_"@ + package@,
    {
        let mut p = self.cache_dir.clone();
        p.append("/");
        p.append(os);
        p.append("_");
        p.append(package);
        p
    }

    /// Whether the last recorded install attempt for `(os, package)` is
    /// within the TTL window of `now`. An unknown pair is never fresh.
    pub fn is_fresh(&self, os: &str, package: &str, now: u64) -> (r: bool)
        ensures
            r == spec_is_fresh(self@.entries, os@, package@, now),
    {
        let ghost ev = self.entries.deep_view();
        let mut i: usize = self.entries.len();
        proof {
            assert(ev.take(i as int) =~= ev);
        }
        while i > 0
            invariant
                i <= self.entries.len(),
                ev == self.entries.deep_view(),
                spec_lookup(ev, os@, package@) == spec_lookup(ev.take(i as int), os@, package@),
            decreases i,
        {
            let e = &self.entries[i - 1];
            proof {
                assert(ev[i - 1] == self.entries@[i - 1]@);
                assert(ev.take(i as int).last() == ev[i - 1]);
                assert(ev.take(i as int).drop_last() =~= ev.take(i - 1));
            }
            if text::str_eq(e.platform.as_str(), os) && text::str_eq(e.package.as_str(), package) {
                let ts = e.timestamp;
                return now <= ts || now - ts < CACHE_DURATION_SECS;
            }
            i -= 1;
        }
        proof {
            assert(ev.take(0).len() == 0);
        }
        false
    }

    /// Record that `(os, package)` was installed at `now`: the pair's
    /// lookup becomes `now`; every other pair is untouched.
    pub fn update(&mut self, os: &str, package: &str, now: u64)
        ensures
            final(self)@.dir == old(self)@.dir,
            spec_lookup(final(self)@.entries, os@, package@) == Some(now),
            forall|o: Seq<char>, p: Seq<char>|
                !(o == os@ && p == package@) ==> #[trigger] spec_lookup(
                    final(self)@.entries,
                    o,
                    p,
                ) == spec_lookup(old(self)@.entries, o, p),
    {
        let e = CacheEntry {
            platform: String::from_str(os),
            package: String::from_str(package),
            timestamp: now,
        };
        let ghost pre = self.entries;
        self.entries.push(e);
        proof {
            crate::command::lemma_vec_push_deep_view(pre, self.entries, e);
            assert(self.entries.deep_view().drop_last() =~= pre.deep_view());
            assert(self.entries.deep_view().last() == (os@, package@, now));
        }
    }
}

/// The standardized platform name for a host OS identifier, if supported.
pub open spec fn spec_os_name(os: Seq<char>) -> Option<Seq<char>> {
    if os == "linux"@ {
        Some("linux"@)
    } else if os == "macos"@ {
        Some("darwin"@)
    } else if os == "windows"@ {
        Some("windows"@)
    } else {
        None
    }
}

/// The standardized architecture name for a host identifier, if supported.
pub open spec fn spec_arch_name(arch: Seq<char>) -> Option<Seq<char>> {
    if arch == "x86_64"@ {
        Some("amd64"@)
    } else if arch == "aarch64"@ {
        Some("arm64"@)
    } else {
        None
    }
}

/// Map a host OS and architecture identifier pair, as the platform reports
/// them, to this engine's standardized names. Exactly the identifiers that
/// `spec_os_name` and `spec_arch_name` accept succeed; anything else is a
/// detection failure naming the offending identifier.
pub fn detect_platform(os: &str, arch: &str) -> (r: Result<(String, String), SetupError>)
    ensures
        match r {
            Ok(p) => spec_os_name(os@) == Some(p.0@) && spec_arch_name(arch@) == Some(p.1@),
            Err(e) => {
                &&& (spec_os_name(os@) is None || spec_arch_name(arch@) is None)
                &&& if spec_os_name(os@) is None {
                    e@ == (SetupErrorView::DetectionFailure { message: "Unsupported OS: "@ + os@ })
                } else {
                    e@ == (SetupErrorView::DetectionFailure {
                        message: "Unsupported architecture: "@ + arch@,
                    })
                }
            },
        },
{
    let os_name: &str = if text::str_eq(os, "linux") {
        "linux"
    } else if text::str_eq(os, "macos") {
        "darwin"
    } else if text::str_eq(os, "windows") {
        "windows"
    } else {
        let mut m = String::from_str("Unsupported OS: ");
        m.append(os);
        return Err(SetupError::DetectionFailure { message: m });
    };
    let arch_name: &str = if text::str_eq(arch, "x86_64") {
        "amd64"
    } else if text::str_eq(arch, "aarch64") {
        "arm64"
    } else {
        let mut m = String::from_str("Unsupported architecture: ");
        m.append(arch);
        return Err(SetupError::DetectionFailure { message: m });
    };
    Ok((String::from_str(os_name), String::from_str(arch_name)))
}

} // verus!

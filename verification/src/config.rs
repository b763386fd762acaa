//! Resolution of a profile's configuration. Reading the configuration file
//! is plumbing left to the caller; it hands over each raw setting as an
//! optional plain value (absent where the file does not answer), and what
//! is verified here is the merging: boolean flags spelled as text, the
//! fixed defaults, per-profile values overriding global ones, minutes
//! turned into seconds, and the filter compiled from the final fragments.

use vstd::prelude::*;

use crate::filter::{FilterError, FilterRule};
use crate::text::str_eq;

verus! {

/// The global fallback when the file names no parallel download count.
pub const DEFAULT_PARALLEL_DOWNLOADS: usize = 2;

/// The global fallback when the file names no poll interval: 15 minutes.
pub const DEFAULT_SLEEP_SECS: u64 = 900;

/// A truthy flag value: `true`, `1` or `on`; everything else is false.
pub open spec fn spec_flag_on(s: Seq<char>) -> bool {
    s == "true"@ || s == "1"@ || s == "on"@
}

/// Whether a textual flag is switched on.
pub fn flag_on(s: &str) -> (r: bool)
    ensures
        r == spec_flag_on(s@),
{
    str_eq(s, "true") || str_eq(s, "1") || str_eq(s, "on")
}

/// The view of an optional textual setting.
pub open spec fn spec_opt_text(s: Option<&str>) -> Option<Seq<char>> {
    match s {
        Some(t) => Some(t@),
        None => None,
    }
}

/// Verbosity: the command line wins; otherwise the setting's flag value;
/// a missing global setting means verbose.
pub open spec fn spec_verbose(cli: bool, raw: Option<Seq<char>>, fallback: bool) -> bool {
    cli || match raw {
        Some(v) => spec_flag_on(v),
        None => fallback,
    }
}

/// Resolve a verbosity setting against its fallback (`true` for the global
/// setting, the global result for a profile's).
pub fn resolve_verbose(cli: bool, raw: Option<&str>, fallback: bool) -> (r: bool)
    ensures
        r == spec_verbose(cli, spec_opt_text(raw), fallback),
{
    if cli {
        true
    } else {
        match raw {
            Some(v) => flag_on(v),
            None => fallback,
        }
    }
}

/// The quit flag: a `run_forever` setting switched on means do not quit;
/// a missing setting keeps the fallback (`true` globally: run once).
pub open spec fn spec_quit(raw: Option<Seq<char>>, fallback: bool) -> bool {
    match raw {
        Some(v) => !spec_flag_on(v),
        None => fallback,
    }
}

/// Resolve a `run_forever` setting into the quit flag.
pub fn resolve_quit(raw: Option<&str>, fallback: bool) -> (r: bool)
    ensures
        r == spec_quit(spec_opt_text(raw), fallback),
{
    match raw {
        Some(v) => !flag_on(v),
        None => fallback,
    }
}

/// The poll interval in seconds: the configured minutes times sixty,
/// saturated at the type's top, or the fallback where nothing is set.
pub open spec fn spec_sleep_secs(raw: Option<u64>, fallback: u64) -> u64 {
    match raw {
        Some(minutes) => if minutes * 60 <= u64::MAX {
            (minutes * 60) as u64
        } else {
            u64::MAX
        },
        None => fallback,
    }
}

/// Resolve a poll interval given in minutes.
pub fn resolve_sleep_secs(raw: Option<u64>, fallback: u64) -> (r: u64)
    ensures
        r == spec_sleep_secs(raw, fallback),
{
    match raw {
        Some(minutes) => {
            if minutes <= u64::MAX / 60 {
                minutes * 60
            } else {
                u64::MAX
            }
        },
        None => fallback,
    }
}

/// The parallel download count, kept at one or more: a configured zero
/// would stall the stage, so it is read as one.
pub open spec fn spec_parallel(raw: Option<usize>, fallback: usize) -> usize {
    let v = match raw {
        Some(n) => n,
        None => fallback,
    };
    if v == 0 {
        1usize
    } else {
        v
    }
}

/// Resolve a parallel download count against its fallback.
pub fn resolve_parallel(raw: Option<usize>, fallback: usize) -> (r: usize)
    ensures
        r == spec_parallel(raw, fallback),
        1 <= r,
{
    let v = match raw {
        Some(n) => n,
        None => fallback,
    };
    if v == 0 {
        1
    } else {
        v
    }
}

/// A textual setting resolved against its fallback.
pub fn resolve_text(raw: Option<String>, fallback: &str) -> (r: String)
    ensures
        r@ == match raw {
            Some(v) => v@,
            None => fallback@,
        },
{
    match raw {
        Some(v) => v,
        None => fallback.to_owned(),
    }
}

/// One profile's raw settings as the configuration file answers them:
/// `None` where the file holds no usable value under the profile's key.
pub struct RawSettings {
    pub verbose: Option<String>,
    pub parallel_downloads: Option<usize>,
    pub path: Option<String>,
    pub run_forever: Option<String>,
    pub check_timer_minutes: Option<u64>,
    pub match_fragment: Option<String>,
    pub match_false_fragment: Option<String>,
}

/// The globally resolved fallbacks a profile's own settings override.
pub struct GlobalDefaults {
    pub verbose: bool,
    pub parallel_downloads: usize,
    pub path: String,
    pub quit: bool,
    pub sleep_secs: u64,
    pub match_fragment: String,
    pub match_false_fragment: String,
}

/// A fully resolved profile: what one poll loop instance runs on.
pub struct ProfileConfig {
    pub name: String,
    pub url: String,
    pub path: String,
    pub verbose: bool,
    pub parallel_downloads: usize,
    pub quit: bool,
    pub sleep_secs: u64,
    pub filter: FilterRule,
}

impl ProfileConfig {
    /// The resolved fields are within their documented bounds.
    pub open spec fn wf(self) -> bool {
        1 <= self.parallel_downloads
    }
}

/// Resolve the global settings: the fixed defaults fill in what the file
/// leaves unanswered (verbose where even the verbosity flag is missing,
/// two parallel downloads, the current directory, run once, 15 minutes,
/// and empty filter fragments).
pub fn resolve_globals(cli_verbose: bool, raw: RawSettings) -> (r: GlobalDefaults)
    ensures
        r.verbose == spec_verbose(cli_verbose, raw.verbose.deep_view(), true),
        r.parallel_downloads == spec_parallel(
            raw.parallel_downloads,
            DEFAULT_PARALLEL_DOWNLOADS as usize,
        ),
        r.path@ == match raw.path {
            Some(p) => p@,
            None => "./"@,
        },
        r.quit == spec_quit(raw.run_forever.deep_view(), true),
        r.sleep_secs == spec_sleep_secs(raw.check_timer_minutes, DEFAULT_SLEEP_SECS as u64),
        r.match_fragment@ == match raw.match_fragment {
            Some(f) => f@,
            None => ""@,
        },
        r.match_false_fragment@ == match raw.match_false_fragment {
            Some(f) => f@,
            None => ""@,
        },
{
    let verbose = resolve_verbose(
        cli_verbose,
        match &raw.verbose {
            Some(v) => Some(v.as_str()),
            None => None,
        },
        true,
    );
    let quit = resolve_quit(
        match &raw.run_forever {
            Some(v) => Some(v.as_str()),
            None => None,
        },
        true,
    );
    GlobalDefaults {
        verbose,
        parallel_downloads: resolve_parallel(raw.parallel_downloads, DEFAULT_PARALLEL_DOWNLOADS),
        path: resolve_text(raw.path, "./"),
        quit,
        sleep_secs: resolve_sleep_secs(raw.check_timer_minutes, DEFAULT_SLEEP_SECS),
        match_fragment: resolve_text(raw.match_fragment, ""),
        match_false_fragment: resolve_text(raw.match_false_fragment, ""),
    }
}

/// Resolve one profile against the global fallbacks and compile its filter.
/// Fails exactly where one of the final fragments is no valid pattern once
/// anchored, with the filter's own error saying which.
pub fn resolve_profile(
    cli_verbose: bool,
    name: String,
    url: String,
    raw: RawSettings,
    globals: &GlobalDefaults,
) -> (r: Result<ProfileConfig, FilterError>)
    ensures
        r matches Ok(p) ==> {
            &&& p.wf()
            &&& p.name@ == name@
            &&& p.url@ == url@
            &&& p.verbose == spec_verbose(cli_verbose, raw.verbose.deep_view(), globals.verbose)
            &&& p.parallel_downloads == spec_parallel(
                raw.parallel_downloads,
                globals.parallel_downloads,
            )
            &&& p.path@ == match raw.path {
                Some(q) => q@,
                None => globals.path@,
            }
            &&& p.quit == spec_quit(raw.run_forever.deep_view(), globals.quit)
            &&& p.sleep_secs == spec_sleep_secs(raw.check_timer_minutes, globals.sleep_secs)
            &&& p.filter.spec_built_from(
                match raw.match_fragment {
                    Some(f) => f@,
                    None => globals.match_fragment@,
                },
                match raw.match_false_fragment {
                    Some(f) => f@,
                    None => globals.match_false_fragment@,
                },
            )
        },
        r matches Err(e) ==> FilterRule::compile_fails_with(
            match raw.match_fragment {
                Some(f) => f@,
                None => globals.match_fragment@,
            },
            match raw.match_false_fragment {
                Some(f) => f@,
                None => globals.match_false_fragment@,
            },
            e,
        ),
{
    let verbose = resolve_verbose(
        cli_verbose,
        match &raw.verbose {
            Some(v) => Some(v.as_str()),
            None => None,
        },
        globals.verbose,
    );
    let quit = resolve_quit(
        match &raw.run_forever {
            Some(v) => Some(v.as_str()),
            None => None,
        },
        globals.quit,
    );
    let parallel_downloads = resolve_parallel(raw.parallel_downloads, globals.parallel_downloads);
    let path = resolve_text(raw.path, globals.path.as_str());
    let sleep_secs = resolve_sleep_secs(raw.check_timer_minutes, globals.sleep_secs);
    let match_fragment = resolve_text(raw.match_fragment, globals.match_fragment.as_str());
    let match_false_fragment = resolve_text(
        raw.match_false_fragment,
        globals.match_false_fragment.as_str(),
    );
    let filter = match FilterRule::compile(match_fragment.as_str(), match_false_fragment.as_str()) {
        Ok(f) => f,
        Err(e) => {
            return Err(e);
        },
    };
    Ok(
        ProfileConfig {
            name,
            url,
            path,
            verbose,
            parallel_downloads,
            quit,
            sleep_secs,
            filter,
        },
    )
}

} // verus!

//! The watermark store's logic. The store itself is a dumb read/write of one
//! small file per profile; what is verified here is everything around it:
//! the file's name, how its contents are interpreted (trim, parse, fall back
//! to the epoch sentinel on anything unreadable), what is written back, and
//! when a write is owed at all — only for a strictly newer value, so the
//! persisted watermark never moves backwards.

use vstd::prelude::*;

use crate::text::{spec_trim, trim_spaces};
use crate::timestamp::{
    format_rfc3339, parse_rfc3339, rfc3339_render, rfc3339_timestamp, spec_lt, spec_sentinel,
    Timestamp,
};

verus! {

/// The name of a profile's state file: `state_<profile>.dat`.
pub open spec fn spec_state_file_name(profile: Seq<char>) -> Seq<char> {
    "state_"@ + profile + ".dat"@
}

/// The file a profile's watermark is kept in.
pub fn state_file_name(profile: &str) -> (r: String)
    ensures
        r@ == spec_state_file_name(profile@),
{
    let mut name = String::from_str("state_");
    name.append(profile);
    name.append(".dat");
    proof {
        assert(name@ =~= spec_state_file_name(profile@));
    }
    name
}

/// The watermark a saved state stands for: the trimmed contents parsed as
/// RFC 3339, and the epoch sentinel where there are no contents (the file
/// was absent or unreadable) or they do not parse.
pub open spec fn spec_saved_watermark(contents: Option<Seq<char>>) -> Timestamp {
    match contents {
        Some(s) => match rfc3339_timestamp(spec_trim(s)) {
            Some(t) => t,
            None => spec_sentinel(),
        },
        None => spec_sentinel(),
    }
}

/// Interpret what was read from a profile's state file; `None` stands for a
/// file that was absent or unreadable. Never fails: anything that is not a
/// valid RFC 3339 timestamp falls back to the epoch sentinel.
pub fn saved_watermark(contents: Option<&str>) -> (r: Timestamp)
    ensures
        r == spec_saved_watermark(match contents {
            Some(s) => Some(s@),
            None => None,
        }),
        r.wf(),
{
    match contents {
        Some(s) => {
            let trimmed = trim_spaces(s);
            match parse_rfc3339(trimmed) {
                Some(t) => t,
                None => Timestamp::sentinel(),
            }
        },
        None => Timestamp::sentinel(),
    }
}

/// Whether a cycle owes a write at all: only a strictly newer watermark is
/// persisted, so the stored value never decreases and an unchanged cycle
/// rewrites nothing.
pub fn should_persist(loaded: &Timestamp, fresh: &Timestamp) -> (r: bool)
    ensures
        r == spec_lt(*loaded, *fresh),
{
    loaded.lt(fresh)
}

/// The exact contents written for a watermark: its RFC 3339 rendering, or
/// nothing where the instant cannot be rendered.
pub fn render_watermark(t: &Timestamp) -> (r: Option<String>)
    ensures
        r matches Some(s) ==> rfc3339_render(*t) == Some(s@),
        r is None ==> rfc3339_render(*t) is None,
{
    format_rfc3339(t)
}

} // verus!

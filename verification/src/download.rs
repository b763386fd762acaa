//! Destination naming for the download stage: pick a filename from the
//! response's content-disposition header (proper quoted-string extraction)
//! or from the last non-empty segment of the final URL's path, fall back to
//! a fixed name, split it into stem and extension at the last dot, and step
//! a ` (n)` counter past names the destination already holds — a bounded
//! loop with a dedicated error when every candidate is taken.

use vstd::prelude::*;

use crate::text::{
    find_char_from, find_first, spec_dec, spec_find_char_from, spec_find_from, str_eq, u32_to_dec,
};

verus! {

/// How many disambiguating suffixes are tried before the destination is
/// declared unavailable.
pub const MAX_NAME_ATTEMPTS: u32 = 1000;

/// A destination name split at its last dot; the extension keeps the dot.
pub struct FileName {
    pub stem: String,
    pub ext: Option<String>,
}

/// The shape of a split name.
#[verifier::ext_equal]
pub ghost struct FileNameModel {
    pub stem: Seq<char>,
    pub ext: Option<Seq<char>>,
}

impl View for FileName {
    type V = FileNameModel;

    open spec fn view(&self) -> FileNameModel {
        FileNameModel { stem: self.stem@, ext: self.ext.deep_view() }
    }
}

/// The position of the last dot in a name, if any.
pub open spec fn spec_last_dot(s: Seq<char>) -> Option<int>
    decreases s.len(),
{
    if s.len() == 0 {
        None
    } else if s.last() == '.' {
        Some(s.len() - 1)
    } else {
        spec_last_dot(s.drop_last())
    }
}

/// The split of a name at its last dot: everything before it is the stem
/// and the rest, dot included, the extension; a dotless name is all stem.
pub open spec fn spec_split_name(s: Seq<char>) -> FileNameModel {
    match spec_last_dot(s) {
        Some(i) => FileNameModel { stem: s.take(i), ext: Some(s.skip(i)) },
        None => FileNameModel { stem: s, ext: None },
    }
}

/// Split a filename at its last dot.
pub fn split_filename(name: &str) -> (r: FileName)
    ensures
        r@ == spec_split_name(name@),
{
    let len = name.unicode_len();
    proof {
        assert(name@.take(len as int) =~= name@);
    }
    let mut j: usize = len;
    while j > 0 && name.get_char(j - 1) != '.'
        invariant
            j <= len,
            len == name@.len(),
            spec_last_dot(name@) == spec_last_dot(name@.take(j as int)),
        decreases j,
    {
        proof {
            let cur = name@.take(j as int);
            assert(cur.last() == name@[j - 1]);
            assert(cur.drop_last() =~= name@.take(j - 1));
        }
        j = j - 1;
    }
    proof {
        assert(name@.take(len as int) =~= name@);
        if j > 0 {
            assert(name@.take(j as int).last() == name@[j - 1]);
            assert(spec_last_dot(name@) == Some(j - 1));
        }
    }
    if j > 0 {
        let stem = name.substring_char(0, j - 1).to_owned();
        let ext = name.substring_char(j - 1, len).to_owned();
        proof {
            assert(stem@ =~= name@.take(j - 1));
            assert(ext@ =~= name@.skip(j - 1));
        }
        FileName { stem, ext: Some(ext) }
    } else {
        FileName { stem: name.to_owned(), ext: None }
    }
}

/// The candidate for a given attempt: the stem, a ` (n)` suffix from the
/// first retry on, and the extension.
pub open spec fn spec_candidate(f: FileNameModel, attempt: nat) -> Seq<char> {
    let base = if attempt == 0 {
        f.stem
    } else {
        f.stem + " ("@ + spec_dec(attempt) + ")"@
    };
    match f.ext {
        Some(e) => base + e,
        None => base,
    }
}

/// Build the candidate name for one attempt.
pub fn candidate_name(f: &FileName, attempt: u32) -> (r: String)
    ensures
        r@ == spec_candidate(f@, attempt as nat),
{
    let mut name = f.stem.clone();
    if attempt > 0 {
        name.append(" (");
        let digits = u32_to_dec(attempt);
        name.append(digits.as_str());
        name.append(")");
    }
    match &f.ext {
        Some(e) => name.append(e.as_str()),
        None => (),
    }
    proof {
        assert(name@ =~= spec_candidate(f@, attempt as nat));
    }
    name
}

/// The destination directory refused every candidate name.
#[derive(Clone, Copy, Debug, PartialEq, Eq, Structural)]
pub enum NameError {
    DestinationUnavailable,
}

/// Whether a name is already taken.
pub open spec fn spec_taken(existing: Seq<Seq<char>>, name: Seq<char>) -> bool {
    existing.contains(name)
}

/// Whether `existing` holds `name`.
fn contains_name(existing: &Vec<String>, name: &String) -> (r: bool)
    ensures
        r == spec_taken(existing.deep_view(), name@),
{
    let ghost all = existing.deep_view();
    let mut i: usize = 0;
    while i < existing.len()
        invariant
            i <= existing.len(),
            all == existing.deep_view(),
            forall|k: int| 0 <= k < i ==> all[k] != name@,
        decreases existing.len() - i,
    {
        if str_eq(existing[i].as_str(), name.as_str()) {
            proof {
                assert(all[i as int] == name@);
            }
            return true;
        }
        i = i + 1;
    }
    proof {
        assert(!all.contains(name@)) by {
            if all.contains(name@) {
                let k = choose|k: int| 0 <= k < all.len() && all[k] == name@;
                assert(all[k] != name@);
            }
        }
    }
    false
}

/// Choose the first candidate name the destination does not hold yet: the
/// plain name, then ` (1)`, ` (2)`, … up to the attempt cap, after which the
/// destination counts as unavailable. The caller still creates the file
/// exclusively; this resolves collisions against the names it could see.
pub fn resolve_collision(existing: &Vec<String>, f: &FileName) -> (r: Result<String, NameError>)
    ensures
        r matches Ok(name) ==> exists|k: nat|
            k <= MAX_NAME_ATTEMPTS && name@ == spec_candidate(f@, k) && !spec_taken(
                existing.deep_view(),
                name@,
            ) && forall|j: nat|
                j < k ==> spec_taken(existing.deep_view(), spec_candidate(f@, j)),
        r is Err <==> forall|k: nat|
            k <= MAX_NAME_ATTEMPTS ==> spec_taken(existing.deep_view(), spec_candidate(f@, k)),
{
    let mut attempt: u32 = 0;
    while attempt <= MAX_NAME_ATTEMPTS
        invariant
            attempt <= MAX_NAME_ATTEMPTS + 1,
            forall|j: nat| j < attempt ==> spec_taken(existing.deep_view(), spec_candidate(f@, j)),
        decreases MAX_NAME_ATTEMPTS + 1 - attempt,
    {
        let name = candidate_name(f, attempt);
        if !contains_name(existing, &name) {
            proof {
                assert(exists|k: nat|
                    k <= MAX_NAME_ATTEMPTS && name@ == spec_candidate(f@, k) && !spec_taken(
                        existing.deep_view(),
                        name@,
                    ) && forall|j: nat|
                        j < k ==> spec_taken(existing.deep_view(), spec_candidate(f@, j))) by {
                    assert(attempt as nat <= MAX_NAME_ATTEMPTS && name@ == spec_candidate(
                        f@,
                        attempt as nat,
                    ) && !spec_taken(existing.deep_view(), name@) && forall|j: nat|
                        j < attempt as nat ==> spec_taken(
                            existing.deep_view(),
                            spec_candidate(f@, j),
                        ));
                }
            }
            return Ok(name);
        }
        attempt = attempt + 1;
    }
    Err(NameError::DestinationUnavailable)
}

/// The filename a content-disposition header offers: the text between the
/// quotes of its first `filename="…"` parameter, if the header carries one.
pub open spec fn spec_disposition_filename(header: Seq<char>) -> Option<Seq<char>> {
    match spec_find_from(header, "filename=\""@, 0) {
        Some(i) => {
            let start = i + "filename=\""@.len();
            match spec_find_char_from(header, '"', start) {
                Some(j) => Some(header.subrange(start, j)),
                None => None,
            }
        },
        None => None,
    }
}

/// Extract the quoted filename parameter of a content-disposition header,
/// if there is one.
pub fn disposition_filename(header: &str) -> (r: Option<String>)
    ensures
        match r {
            Some(name) => spec_disposition_filename(header@) == Some(name@),
            None => spec_disposition_filename(header@) is None,
        },
{
    let marker = "filename=\"";
    let hlen = header.unicode_len();
    match find_first(header, marker) {
        Some(i) => {
            proof {
                crate::text::lemma_find_from_some(header@, marker@, 0, i as int);
                assert(i + marker@.len() <= hlen);
            }
            let start = i + marker.unicode_len();
            match find_char_from(header, '"', start) {
                Some(j) => {
                    proof {
                        crate::text::lemma_find_char_from_some(header@, '"', start as int, j as int);
                    }
                    Some(header.substring_char(start, j).to_owned())
                },
                None => None,
            }
        },
        None => None,
    }
}

/// The position after the last slash of a path, once trailing slashes are
/// ignored; what follows it is the last non-empty segment.
pub open spec fn spec_strip_slashes(p: Seq<char>) -> Seq<char>
    decreases p.len(),
{
    if p.len() == 0 {
        p
    } else if p.last() == '/' {
        spec_strip_slashes(p.drop_last())
    } else {
        p
    }
}

/// The characters after the last slash.
pub open spec fn spec_tail_segment(p: Seq<char>) -> Seq<char>
    decreases p.len(),
{
    if p.len() == 0 {
        Seq::empty()
    } else if p.last() == '/' {
        Seq::empty()
    } else {
        spec_tail_segment(p.drop_last()).push(p.last())
    }
}

/// The last non-empty segment of a path: trailing slashes are ignored, and
/// a path of nothing but slashes (or nothing at all) has none.
pub open spec fn spec_last_segment(p: Seq<char>) -> Option<Seq<char>> {
    if spec_strip_slashes(p).len() == 0 {
        None
    } else {
        Some(spec_tail_segment(spec_strip_slashes(p)))
    }
}

/// The last non-empty segment of a URL path, if the path has one.
pub fn last_path_segment(path: &str) -> (r: Option<String>)
    ensures
        match r {
            Some(name) => spec_last_segment(path@) == Some(name@),
            None => spec_last_segment(path@) is None,
        },
{
    let len = path.unicode_len();
    proof {
        assert(path@.take(len as int) =~= path@);
    }
    let mut j: usize = len;
    while j > 0 && path.get_char(j - 1) == '/'
        invariant
            j <= len,
            len == path@.len(),
            spec_strip_slashes(path@) == spec_strip_slashes(path@.take(j as int)),
        decreases j,
    {
        proof {
            let cur = path@.take(j as int);
            assert(cur.last() == path@[j - 1]);
            assert(cur.drop_last() =~= path@.take(j - 1));
        }
        j = j - 1;
    }
    proof {
        if j > 0 {
            assert(path@.take(j as int).last() == path@[j - 1]);
        }
        assert(spec_strip_slashes(path@) == path@.take(j as int));
    }
    if j == 0 {
        proof {
            assert(path@.take(0).len() == 0);
        }
        return None;
    }
    let ghost stripped = path@.take(j as int);
    proof {
        assert(stripped.take(j as int) =~= stripped);
        assert(stripped.subrange(j as int, j as int) =~= Seq::<char>::empty());
        assert(spec_tail_segment(stripped) + Seq::<char>::empty() =~= spec_tail_segment(stripped));
    }
    let mut i: usize = j;
    while i > 0 && path.get_char(i - 1) != '/'
        invariant
            i <= j <= len,
            len == path@.len(),
            stripped == path@.take(j as int),
            spec_tail_segment(stripped) == spec_tail_segment(stripped.take(i as int)) + stripped.subrange(
                i as int,
                j as int,
            ),
        decreases i,
    {
        proof {
            let cur = stripped.take(i as int);
            assert(cur.last() == path@[i - 1]);
            assert(cur.drop_last() =~= stripped.take(i - 1));
            assert(spec_tail_segment(stripped.take(i as int)) == spec_tail_segment(
                stripped.take(i - 1),
            ).push(path@[i - 1]));
            assert(spec_tail_segment(stripped.take(i - 1)) + stripped.subrange(i - 1, j as int)
                =~= spec_tail_segment(stripped.take(i as int)) + stripped.subrange(
                i as int,
                j as int,
            ));
        }
        i = i - 1;
    }
    proof {
        if i > 0 {
            assert(stripped.take(i as int).last() == path@[i - 1]);
            assert(spec_tail_segment(stripped.take(i as int)) =~= Seq::<char>::empty());
        } else {
            assert(stripped.take(0).len() == 0);
            assert(spec_tail_segment(stripped.take(0)) =~= Seq::<char>::empty());
        }
        assert(spec_tail_segment(stripped) =~= stripped.subrange(i as int, j as int));
        assert(stripped.subrange(i as int, j as int) =~= path@.subrange(i as int, j as int));
    }
    Some(path.substring_char(i, j).to_owned())
}

/// The name a download is stored under, before collision avoidance: the
/// header's quoted filename where one is offered, else the last non-empty
/// segment of the final URL's path, else the fixed fallback.
pub open spec fn spec_chosen_name(header: Option<Seq<char>>, path: Seq<char>) -> Seq<char> {
    let from_header = match header {
        Some(h) => spec_disposition_filename(h),
        None => None,
    };
    match from_header {
        Some(n) => n,
        None => match spec_last_segment(path) {
            Some(n) => n,
            None => "unknown"@,
        },
    }
}

/// Pick the stored filename from the response's content-disposition header
/// (when present and carrying a quoted filename), else from the final URL's
/// path, else the fixed fallback name.
pub fn choose_filename(header: Option<&str>, path: &str) -> (r: String)
    ensures
        r@ == spec_chosen_name(
            match header {
                Some(h) => Some(h@),
                None => None,
            },
            path@,
        ),
{
    let from_header = match header {
        Some(h) => disposition_filename(h),
        None => None,
    };
    match from_header {
        Some(n) => n,
        None => match last_path_segment(path) {
            Some(n) => n,
            None => String::from_str("unknown"),
        },
    }
}

} // verus!

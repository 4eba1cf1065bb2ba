//! The address resolver: turns each clip's thumbnail address into its
//! downloadable media address by one fixed lexical substitution.
//!
//! The thumbnail of a clip ends in a preview suffix of the shape
//! `-preview-<digits>x<digits>.<letters>`. The resolver finds the leftmost
//! such suffix and replaces it with the literal `.mp4` extension. When no
//! such suffix occurs, the substitution is a no-op and the media address
//! equals the thumbnail address — a documented quirk, not an error. The
//! transform of one record depends only on its own thumbnail address.

use vstd::prelude::*;
use vstd::string::StrSliceExecFns;
use vstd::string::StringExecFns;
use crate::clips::{ClipInfo, Clips};
use crate::text::{alpha_run, alpha_run_from, digit_run, digit_run_from, has_marker_at};

verus! {

/// Length of the preview suffix starting at character `i`, when one starts
/// there: the marker `-preview-`, a digit run, `x`, a digit run, `.`, and a
/// letter run, the runs all maximal and non-empty.
pub open spec fn match_len(s: Seq<char>, i: int) -> Option<int> {
    let p = i + 9;
    if 0 <= i && p <= s.len() && s.subrange(i, p) == "-preview-"@ {
        let d1 = digit_run(s, p);
        if d1 >= 1 && p + d1 < s.len() && s[p + d1] == 'x' {
            let q = p + d1 + 1;
            let d2 = digit_run(s, q);
            if d2 >= 1 && q + d2 < s.len() && s[q + d2] == '.' {
                let t = q + d2 + 1;
                let a = alpha_run(s, t);
                if a >= 1 {
                    Some(t + a - i)
                } else {
                    None
                }
            } else {
                None
            }
        } else {
            None
        }
    } else {
        None
    }
}

/// The position of the leftmost preview suffix at or after `i`, if any.
pub open spec fn first_match_from(s: Seq<char>, i: int) -> Option<int>
    decreases s.len() - i
        when 0 <= i
{
    if i >= s.len() {
        None
    } else if match_len(s, i) is Some {
        Some(i)
    } else {
        first_match_from(s, i + 1)
    }
}

/// The position of the leftmost preview suffix, if any.
pub open spec fn first_match(s: Seq<char>) -> Option<int> {
    first_match_from(s, 0)
}

/// The resolved media address: the leftmost preview suffix replaced by
/// `.mp4`, or the input unchanged when no suffix occurs.
pub open spec fn resolved_url(s: Seq<char>) -> Seq<char> {
    match first_match(s) {
        Some(i) => s.subrange(0, i) + ".mp4"@ + s.subrange(
            i + match_len(s, i)->Some_0,
            s.len() as int,
        ),
        None => s,
    }
}

/// Length of the preview suffix starting at character `i`, if one starts
/// there.
fn match_len_at(s: &str, i: usize) -> (r: Option<usize>)
    requires
        i <= s@.len(),
    ensures
        match r {
            Some(l) => {
                &&& match_len(s@, i as int) == Some(l as int)
                &&& i + l <= s@.len()
                &&& l >= 1
            },
            None => match_len(s@, i as int) is None,
        },
{
    let n = s.unicode_len();
    if n - i < 9 {
        return None;
    }
    proof {
        reveal_strlit("-preview-");
    }
    if !has_marker_at(s, i, "-preview-") {
        return None;
    }
    let p = i + 9;
    let d1 = digit_run_from(s, p);
    if d1 == 0 || p + d1 == n {
        return None;
    }
    if s.get_char(p + d1) != 'x' {
        return None;
    }
    let q = p + d1 + 1;
    let d2 = digit_run_from(s, q);
    if d2 == 0 || q + d2 == n {
        return None;
    }
    if s.get_char(q + d2) != '.' {
        return None;
    }
    let t = q + d2 + 1;
    let a = alpha_run_from(s, t);
    if a == 0 {
        return None;
    }
    Some(t + a - i)
}

/// The position and length of the leftmost preview suffix, if any.
fn find_first_match(s: &str) -> (r: Option<(usize, usize)>)
    ensures
        match r {
            Some(il) => {
                &&& first_match(s@) == Some(il.0 as int)
                &&& match_len(s@, il.0 as int) == Some(il.1 as int)
                &&& il.0 + il.1 <= s@.len()
            },
            None => first_match(s@) is None,
        },
{
    let n = s.unicode_len();
    let mut i: usize = 0;
    while i < n
        invariant
            0 <= i <= n,
            n == s@.len(),
            first_match(s@) == first_match_from(s@, i as int),
        decreases n - i,
    {
        match match_len_at(s, i) {
            Some(l) => {
                return Some((i, l));
            },
            None => {
                i = i + 1;
            },
        }
    }
    None
}

/// Resolves one thumbnail address to its media address: the leftmost preview
/// suffix becomes `.mp4`; an address without one passes through unchanged.
pub fn resolve_thumbnail_url(s: &str) -> (r: String)
    ensures
        r@ == resolved_url(s@),
{
    proof {
        reveal_strlit(".mp4");
    }
    match find_first_match(s) {
        Some((i, l)) => {
            let n = s.unicode_len();
            let prefix = s.substring_char(0, i);
            let suffix = s.substring_char(i + l, n);
            let mut out = prefix.to_owned();
            out.append(".mp4");
            out.append(suffix);
            out
        },
        None => s.to_owned(),
    }
}

/// How a resolved collection relates to the collection it came from: same
/// length, every descriptive field kept, every record's media address set to
/// the resolution of its own thumbnail address — whatever the record's media
/// field held before.
pub open spec fn resolved_collection(pre: Seq<ClipInfo>, post: Seq<ClipInfo>) -> bool {
    &&& post.len() == pre.len()
    &&& forall|j: int|
        0 <= j < pre.len() ==> {
            &&& (#[trigger] post[j]).name == pre[j].name
            &&& post[j].created_by == pre[j].created_by
            &&& post[j].created_date == pre[j].created_date
            &&& post[j].thumbnail_url == pre[j].thumbnail_url
            &&& post[j].video_url is Some
            &&& post[j].video_url->Some_0@ == resolved_url(pre[j].thumbnail_url@)
        }
}

/// Resolves a whole collection, record by record. Total: it cannot fail,
/// only produce possibly-unchanged addresses. Each record's transform reads
/// nothing but that record's thumbnail address.
pub fn create_download_links(clips: Clips) -> (r: Clips)
    ensures
        resolved_collection(clips.clips@, r.clips@),
{
    let ghost orig = clips.clips@;
    let mut rest = clips.clips;
    let mut done: Vec<ClipInfo> = Vec::new();
    while rest.len() > 0
        invariant
            orig == clips.clips@,
            done@.len() + rest@.len() == orig.len(),
            rest@ == orig.subrange(done@.len() as int, orig.len() as int),
            resolved_collection(orig.subrange(0, done@.len() as int), done@),
        decreases rest@.len(),
    {
        let ghost k = done@.len() as int;
        let c = rest.remove(0);
        proof {
            assert(orig.subrange(k, orig.len() as int).remove(0) =~= orig.subrange(
                k + 1,
                orig.len() as int,
            ));
            assert(c == orig[k]);
        }
        let video_url = resolve_thumbnail_url(c.thumbnail_url.as_str());
        done.push(
            ClipInfo {
                name: c.name,
                created_by: c.created_by,
                created_date: c.created_date,
                thumbnail_url: c.thumbnail_url,
                video_url: Some(video_url),
            },
        );
        proof {
            assert(orig.subrange(0, k + 1) =~= orig.subrange(0, k).push(orig[k]));
        }
    }
    proof {
        assert(orig.subrange(0, done@.len() as int) =~= orig);
    }
    Clips { clips: done }
}

/// Whether no record of the collection carries a media address yet — the
/// download operation resolves the collection first when so.
pub fn all_unresolved(clips: &Clips) -> (r: bool)
    ensures
        r == forall|j: int| 0 <= j < clips.clips@.len() ==> (#[trigger] clips.clips@[j]).video_url is None,
{
    let n = clips.clips.len();
    let mut i: usize = 0;
    while i < n
        invariant
            0 <= i <= n,
            n == clips.clips@.len(),
            forall|j: int| 0 <= j < i ==> (#[trigger] clips.clips@[j]).video_url is None,
        decreases n - i,
    {
        if clips.clips[i].video_url.is_some() {
            return false;
        }
        i = i + 1;
    }
    true
}

/// Idempotence of the resolver: resolving a collection a second time yields
/// the same media-address values as resolving it once, because each address
/// is recomputed from the thumbnail address, which never changes.
pub proof fn lemma_resolver_idempotent(
    orig: Seq<ClipInfo>,
    once: Seq<ClipInfo>,
    twice: Seq<ClipInfo>,
)
    requires
        resolved_collection(orig, once),
        resolved_collection(once, twice),
    ensures
        forall|j: int|
            0 <= j < orig.len() ==> (#[trigger] twice[j]).video_url->Some_0@
                == once[j].video_url->Some_0@,
{
}

} // verus!

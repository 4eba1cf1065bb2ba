//! Destination names for downloaded media files, derived deterministically
//! from a clip's creation timestamp, the ordinal segment of its resolved
//! address, and a filesystem-safe transform of its title. Collisions are not
//! detected: a later task with an identical derived name overwrites an
//! earlier one's output.

use vstd::prelude::*;
use vstd::string::StrSliceExecFns;
use vstd::string::StringExecFns;
use crate::clips::ClipInfo;
use crate::text::{digit_run, digit_run_from, has_marker_at, is_digit, is_digit_exec};

verus! {

/// The start of the leftmost ordinal segment at or after `i`: the first
/// position where the marker `-offset-` is followed by at least one digit.
pub open spec fn first_offset_from(s: Seq<char>, i: int) -> Option<int>
    decreases s.len() - i
        when 0 <= i
{
    if i >= s.len() {
        None
    } else if i + 8 < s.len() && s.subrange(i, i + 8) == "-offset-"@ && is_digit(s[i + 8]) {
        Some(i)
    } else {
        first_offset_from(s, i + 1)
    }
}

/// The ordinal segment of an address: the digit run after the leftmost
/// `-offset-` marker, or `0` when the address has none.
pub open spec fn offset_digits(s: Seq<char>) -> Seq<char> {
    match first_offset_from(s, 0) {
        Some(i) => s.subrange(i + 8, i + 8 + digit_run(s, i + 8)),
        None => "0"@,
    }
}

/// Extracts the ordinal segment of a media address, defaulting to `0`.
pub fn extract_offset(s: &str) -> (r: String)
    ensures
        r@ == offset_digits(s@),
{
    proof {
        reveal_strlit("-offset-");
        reveal_strlit("0");
    }
    let n = s.unicode_len();
    let mut i: usize = 0;
    while i < n
        invariant
            0 <= i <= n,
            n == s@.len(),
            first_offset_from(s@, 0) == first_offset_from(s@, i as int),
        decreases n - i,
    {
        proof {
            reveal_strlit("-offset-");
        }
        if n - i > 8 && has_marker_at(s, i, "-offset-") && is_digit_exec(s.get_char(i + 8)) {
            let run = digit_run_from(s, i + 8);
            return s.substring_char(i + 8, i + 8 + run).to_owned();
        }
        i = i + 1;
    }
    String::from_str("0")
}

/// The characters of a title made filesystem-safe: every path separator
/// replaced by a dash, everything else kept.
pub open spec fn osified(s: Seq<char>) -> Seq<char> {
    Seq::new(s.len(), |i: int| if s[i] == '/' { '-' } else { s[i] })
}

/// Replaces every path separator in a title with a dash.
pub fn osify_title(s: &str) -> (r: String)
    ensures
        r@ == osified(s@),
{
    let n = s.unicode_len();
    let mut out = String::new();
    let mut i: usize = 0;
    while i < n
        invariant
            0 <= i <= n,
            n == s@.len(),
            out@ == osified(s@.subrange(0, i as int)),
        decreases n - i,
    {
        if s.get_char(i) == '/' {
            out.append("-");
            proof {
                reveal_strlit("-");
                assert(out@ =~= osified(s@.subrange(0, i as int + 1)));
            }
        } else {
            out.append(s.substring_char(i, i + 1));
            proof {
                assert(out@ =~= osified(s@.subrange(0, i as int + 1)));
            }
        }
        i = i + 1;
    }
    proof {
        assert(s@.subrange(0, n as int) =~= s@);
    }
    out
}

/// The derived destination file name: creation timestamp, the ordinal
/// segment of the media address in parentheses, a space, the
/// filesystem-safe title, and the media extension.
pub open spec fn file_name(date: Seq<char>, url: Seq<char>, title: Seq<char>) -> Seq<char> {
    date + "("@ + offset_digits(url) + ") "@ + osified(title) + ".mp4"@
}

/// One unit of download work: the media address to fetch and the file name
/// to store it under, inside the caller's download directory.
#[derive(Debug, PartialEq)]
pub struct DownloadTask {
    pub url: String,
    pub dest_name: String,
}

/// Derives the destination file name for a clip from its creation timestamp,
/// its media address and its title.
pub fn clip_file_name(created_date: &str, video_url: &str, title: &str) -> (r: String)
    ensures
        r@ == file_name(created_date@, video_url@, title@),
{
    let mut out = created_date.to_owned();
    out.append("(");
    let offset = extract_offset(video_url);
    out.append(offset.as_str());
    out.append(") ");
    let safe_title = osify_title(title);
    out.append(safe_title.as_str());
    out.append(".mp4");
    proof {
        reveal_strlit("(");
        reveal_strlit(") ");
        reveal_strlit(".mp4");
        assert(out@ =~= file_name(created_date@, video_url@, title@));
    }
    out
}

/// Turns one clip record into a download task, when the record has a media
/// address: the address is fetched, the derived file name receives it. A
/// record without a media address yields no task.
pub fn make_task(clip: ClipInfo) -> (r: Option<DownloadTask>)
    ensures
        match clip.video_url {
            Some(u) => {
                &&& r is Some
                &&& r->Some_0.url == u
                &&& r->Some_0.dest_name@ == file_name(clip.created_date@, u@, clip.name@)
            },
            None => r is None,
        },
{
    match clip.video_url {
        Some(url) => {
            let dest_name = clip_file_name(
                clip.created_date.as_str(),
                url.as_str(),
                clip.name.as_str(),
            );
            Some(DownloadTask { url, dest_name })
        },
        None => None,
    }
}

} // verus!

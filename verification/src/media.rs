//! Media resolution, fetching decisions, and deduplication.
//!
//! A media message carries a locator: either the chat protocol's internal
//! scheme, rewritten here into a download URL, or a direct resource. Before
//! any request is issued the dedup log and the in-run cache are consulted;
//! the response's content type decides the file extension, and only a
//! persisted fetch is recorded in the dedup log.

use vstd::prelude::*;
use crate::util::str_eq;
use crate::util::clone_bytes;
use crate::dedup::DedupLog;
use crate::cache::LookupCache;

verus! {

/// A downloaded media artifact: its identity, file extension, and bytes.
/// Two artifacts with the same `id` are the same artifact.
pub struct Image {
    /// File extension, one of the accepted image types.
    pub extension: String,
    /// Identity, derived from the source URL's path.
    pub id: String,
    /// The raw bytes.
    pub data: Vec<u8>,
}

impl Image {
    /// The accepted extensions.
    pub open spec fn wf(self) -> bool {
        self.extension@ == "jpeg"@ || self.extension@ == "png"@ || self.extension@ == "gif"@
    }

    /// Builds an artifact from its parts.
    pub fn from(id: String, extension: String, data: Vec<u8>) -> (r: Image)
        ensures
            r.id == id,
            r.extension == extension,
            r.data == data,
    {
        Image { extension, id, data }
    }

    /// Copies the artifact.
    pub fn duplicate(&self) -> (r: Image)
        ensures
            r.id@ == self.id@,
            r.extension@ == self.extension@,
            r.data@ == self.data@,
    {
        Image {
            extension: self.extension.clone(),
            id: self.id.clone(),
            data: clone_bytes(&self.data),
        }
    }
}

/// Why a media item could not be fetched.
#[derive(Debug)]
pub enum MediaError {
    /// The request itself failed.
    FetchFailed,
    /// The response's content type is not an accepted image type.
    UnsupportedContentType,
}

/// The extension for a response content type: the subtype of `image/jpeg`,
/// `image/png` or `image/gif`; anything else is unsupported. The subtype is
/// what stands between the first separating slash and the next.
pub open spec fn spec_extension_of(content_type: Seq<char>) -> Option<Seq<char>> {
    let sub = spec_subtype(content_type);
    if sub == "jpeg"@ {
        Some("jpeg"@)
    } else if sub == "png"@ {
        Some("png"@)
    } else if sub == "gif"@ {
        Some("gif"@)
    } else {
        None
    }
}

/// The first index at or after `i` holding `c`, or the length when none does.
pub open spec fn spec_find(s: Seq<char>, i: int, c: char) -> int
    decreases s.len() - i when 0 <= i <= s.len()
{
    if i < 0 || i >= s.len() {
        s.len() as int
    } else if s[i] == c {
        i
    } else {
        spec_find(s, i + 1, c)
    }
}

/// The subtype of a content type: the characters between the first `/` and
/// the next one (or the end).
pub open spec fn spec_subtype(content_type: Seq<char>) -> Seq<char> {
    let a = spec_find(content_type, 0, '/');
    if a == content_type.len() {
        Seq::<char>::empty()
    } else {
        content_type.subrange(a + 1, spec_find(content_type, a + 1, '/'))
    }
}

/// What `spec_find` returns lies between `i` and the length, no character
/// before it (from `i` on) is `c`, and it points at `c` unless it is the
/// length.
pub proof fn lemma_find_range(s: Seq<char>, i: int, c: char)
    requires
        0 <= i <= s.len(),
    ensures
        i <= spec_find(s, i, c) <= s.len(),
        spec_find(s, i, c) < s.len() ==> s[spec_find(s, i, c)] == c,
        forall|j: int| i <= j < spec_find(s, i, c) ==> s[j] != c,
    decreases s.len() - i,
{
    if i < s.len() && s[i] != c {
        lemma_find_range(s, i + 1, c);
    }
}

/// Finds the first occurrence of `c` in `s` at or after `from`.
pub fn find_char(s: &str, from: usize, c: char) -> (r: usize)
    requires
        from <= s@.len(),
    ensures
        r == spec_find(s@, from as int, c),
        from <= r <= s@.len(),
    {
    let n = s.unicode_len();
    let mut i: usize = from;
    while i < n
        invariant
            from <= i <= n,
            n == s@.len(),
            spec_find(s@, from as int, c) == spec_find(s@, i as int, c),
        decreases n - i,
    {
        if s.get_char(i) == c {
            proof {
                lemma_find_range(s@, i as int, c);
            }
            return i;
        }
        i = i + 1;
    }
    proof {
        lemma_find_range(s@, from as int, c);
    }
    n
}

/// Maps a response content type to the file extension the pipeline accepts,
/// or reports the type as unsupported.
pub fn extension_of_content_type(content_type: &str) -> (r: Result<String, MediaError>)
    ensures
        match r {
            Ok(ext) => spec_extension_of(content_type@) == Some(ext@),
            Err(e) => e is UnsupportedContentType && spec_extension_of(content_type@) is None,
        },
{
    let n = content_type.unicode_len();
    let a = find_char(content_type, 0, '/');
    if a == n {
        proof {
            reveal_strlit("jpeg");
            reveal_strlit("png");
            reveal_strlit("gif");
            assert("jpeg"@.len() == 4);
            assert("png"@.len() == 3);
            assert("gif"@.len() == 3);
            assert(spec_subtype(content_type@) == Seq::<char>::empty());
        }
        return Err(MediaError::UnsupportedContentType);
    }
    let b = find_char(content_type, a + 1, '/');
    let sub = content_type.substring_char(a + 1, b);
    proof {
        assert(sub@ == spec_subtype(content_type@));
    }
    if str_eq(&String::from_str(sub), "jpeg") {
        Ok(String::from_str("jpeg"))
    } else if str_eq(&String::from_str(sub), "png") {
        Ok(String::from_str("png"))
    } else if str_eq(&String::from_str(sub), "gif") {
        Ok(String::from_str("gif"))
    } else {
        Err(MediaError::UnsupportedContentType)
    }
}

/// The scheme of the chat protocol's internal media locators.
pub const MXC_SCHEME: &'static str = "mxc://";

/// Where internal media is downloaded from: the platform's media-download
/// base path; the media id is appended to it.
pub const MEDIA_DOWNLOAD_BASE: &'static str =
    "https://matrix.redditspace.com/_matrix/media/r0/download/reddit.com/";

/// An internal-scheme locator.
pub open spec fn spec_is_mxc(u: Seq<char>) -> bool {
    u.len() >= 6 && u.subrange(0, 6) == MXC_SCHEME@
}

/// A direct web resource.
pub open spec fn spec_is_http(u: Seq<char>) -> bool {
    (u.len() >= 8 && u.subrange(0, 8) == "https://"@) || (u.len() >= 7 && u.subrange(0, 7)
        == "http://"@)
}

/// The media id of an internal locator: the first path segment after the
/// server name.
pub open spec fn spec_mxc_id(u: Seq<char>) -> Seq<char> {
    let h = spec_find(u, 6, '/');
    if h == u.len() {
        Seq::<char>::empty()
    } else {
        u.subrange(h + 1, spec_find(u, h + 1, '/'))
    }
}

/// Where the segment starting at `i` ends: the next `/` or `end`, whichever
/// comes first.
pub open spec fn spec_seg_end(u: Seq<char>, i: int, end: int) -> int {
    let f = spec_find(u, i, '/');
    if f < end {
        f
    } else {
        end
    }
}

/// The last non-empty `/`-separated segment of `u` between `start` and
/// `end`, or the empty sequence when every segment is empty.
pub open spec fn spec_last_seg(u: Seq<char>, start: int, end: int) -> Seq<char>
    decreases end - start when 0 <= start <= end <= u.len() via spec_last_seg_decreases
{
    let e = spec_seg_end(u, start, end);
    let cur = u.subrange(start, e);
    if e >= end {
        cur
    } else {
        let rest = spec_last_seg(u, e + 1, end);
        if rest.len() > 0 {
            rest
        } else {
            cur
        }
    }
}

#[via_fn]
proof fn spec_last_seg_decreases(u: Seq<char>, start: int, end: int) {
    lemma_find_range(u, start, '/');
}

/// Where a direct resource's scheme ends.
pub open spec fn spec_scheme_end(u: Seq<char>) -> int {
    if u.len() >= 8 && u.subrange(0, 8) == "https://"@ {
        8
    } else {
        7
    }
}

/// Where a direct resource's path ends: at the query or fragment, or at the
/// end of the locator.
pub open spec fn spec_path_end(u: Seq<char>) -> int {
    let q = spec_find(u, spec_scheme_end(u), '?');
    let h = spec_find(u, spec_scheme_end(u), '#');
    if q < h {
        q
    } else {
        h
    }
}

/// The media id of a direct resource: the last non-empty path segment.
pub open spec fn spec_direct_id(u: Seq<char>) -> Seq<char> {
    let ps = spec_find(u, spec_scheme_end(u), '/');
    let pe = spec_path_end(u);
    if ps >= pe {
        Seq::<char>::empty()
    } else {
        spec_last_seg(u, ps + 1, pe)
    }
}

/// The identity of the artifact a locator names.
pub open spec fn spec_media_id(u: Seq<char>) -> Seq<char> {
    if spec_is_mxc(u) {
        spec_mxc_id(u)
    } else {
        spec_direct_id(u)
    }
}

/// The URL a locator is downloaded from: an internal locator is rewritten
/// onto the platform's media-download base path; a direct resource is
/// fetched as it stands.
pub open spec fn spec_download_url(u: Seq<char>) -> Seq<char> {
    if spec_is_mxc(u) {
        MEDIA_DOWNLOAD_BASE@ + spec_mxc_id(u)
    } else {
        u
    }
}

/// A locator resolved for fetching: where to request it and what identity
/// the artifact will carry.
pub struct ResolvedMedia {
    pub download_url: String,
    pub id: String,
}

/// Decides whether a locator uses the internal media scheme.
pub fn is_mxc_url(url: &String) -> (r: bool)
    ensures
        r == spec_is_mxc(url@),
{
    proof {
        reveal_strlit("mxc://");
    }
    if url.as_str().unicode_len() < 6 {
        return false;
    }
    let head = url.as_str().substring_char(0, 6);
    str_eq(&String::from_str(head), MXC_SCHEME)
}

/// Decides whether a locator is a direct web resource.
pub fn is_http_url(url: &String) -> (r: bool)
    ensures
        r == spec_is_http(url@),
{
    proof {
        reveal_strlit("https://");
        reveal_strlit("http://");
    }
    let n = url.as_str().unicode_len();
    if n >= 8 {
        let head = url.as_str().substring_char(0, 8);
        if str_eq(&String::from_str(head), "https://") {
            return true;
        }
    }
    if n >= 7 {
        let head = url.as_str().substring_char(0, 7);
        if str_eq(&String::from_str(head), "http://") {
            return true;
        }
    }
    false
}

/// The last non-empty `/`-separated segment between `start` and `end`.
#[verifier::loop_isolation(false)]
fn last_nonempty_segment(s: &str, start: usize, end: usize) -> (r: String)
    requires
        start <= end <= s@.len(),
    ensures
        r@ == spec_last_seg(s@, start as int, end as int),
{
    let mut pos = start;
    let mut best = String::new();
    loop
        invariant
            start <= pos <= end,
            spec_last_seg(s@, start as int, end as int) == (if spec_last_seg(
                s@,
                pos as int,
                end as int,
            ).len() > 0 {
                spec_last_seg(s@, pos as int, end as int)
            } else {
                best@
            }),
        decreases end - pos,
    {
        let f = find_char(s, pos, '/');
        let e = if f < end {
            f
        } else {
            end
        };
        let cur = s.substring_char(pos, e);
        if e >= end {
            if cur.unicode_len() > 0 {
                return String::from_str(cur);
            } else {
                proof {
                    assert(spec_last_seg(s@, pos as int, end as int) == cur@);
                    assert(cur@.len() == 0);
                    assert(best@ =~= cur@ || best@ == spec_last_seg(
                        s@,
                        start as int,
                        end as int,
                    ));
                }
                return best;
            }
        }
        if cur.unicode_len() > 0 {
            best = String::from_str(cur);
        }
        pos = e + 1;
    }
}

/// Resolves a media locator: an internal locator is rewritten into a
/// download URL on the media-download base path with the first path segment
/// after the server as the id; a direct resource keeps its URL and takes the
/// last non-empty path segment as its id.
#[verifier::loop_isolation(false)]
pub fn resolve_media_url(url: &String) -> (r: ResolvedMedia)
    requires
        spec_is_mxc(url@) || spec_is_http(url@),
    ensures
        r.download_url@ == spec_download_url(url@),
        r.id@ == spec_media_id(url@),
{
    let s = url.as_str();
    let n = s.unicode_len();
    if is_mxc_url(url) {
        let h = find_char(s, 6, '/');
        let id = if h == n {
            String::new()
        } else {
            let e = find_char(s, h + 1, '/');
            String::from_str(s.substring_char(h + 1, e))
        };
        let base = String::from_str(MEDIA_DOWNLOAD_BASE);
        let download_url = base.concat(id.as_str());
        ResolvedMedia { download_url, id }
    } else {
        proof {
            reveal_strlit("https://");
            reveal_strlit("http://");
        }
        let scheme_end: usize = if n >= 8 && str_eq(
            &String::from_str(s.substring_char(0, 8)),
            "https://",
        ) {
            8
        } else {
            7
        };
        proof {
            assert(scheme_end == spec_scheme_end(url@));
            assert(scheme_end <= n);
        }
        let q = find_char(s, scheme_end, '?');
        let hsh = find_char(s, scheme_end, '#');
        let pe = if q < hsh {
            q
        } else {
            hsh
        };
        let ps = find_char(s, scheme_end, '/');
        let id = if ps >= pe {
            String::new()
        } else {
            last_nonempty_segment(s, ps + 1, pe)
        };
        ResolvedMedia { download_url: url.clone(), id }
    }
}

/// Fieldwise sameness of two artifacts.
pub open spec fn spec_image_like(a: Image, b: Image) -> bool {
    a.id@ == b.id@ && a.extension@ == b.extension@ && a.data@ == b.data@
}

/// How one media locator is to be handled.
pub enum FetchPlan {
    /// The locator is recorded in the dedup log: it was fetched and
    /// persisted in an earlier run, so nothing is requested and no artifact
    /// is produced.
    SkipLogged,
    /// The artifact is memoized in the in-run cache: reuse it, request
    /// nothing.
    UseCached { img: Image },
    /// The locator must be requested from `download_url`; the artifact will
    /// carry identity `id`.
    Get { download_url: String, id: String },
}

/// A request is owed exactly when the locator is neither in the dedup log
/// nor in the in-run cache.
pub open spec fn spec_needs_get(log: DedupLog, cache: LookupCache, url: Seq<char>) -> bool {
    !log.spec_contains(url) && cache.spec_media(url) is None
}

/// Decides how to handle one media locator: the dedup log is consulted
/// first, then the in-run cache; only a locator known to neither is
/// requested.
pub fn plan_fetch(url: &String, log: &DedupLog, cache: &LookupCache) -> (r: FetchPlan)
    requires
        spec_is_mxc(url@) || spec_is_http(url@),
    ensures
        log.spec_contains(url@) ==> r is SkipLogged,
        r is SkipLogged ==> log.spec_contains(url@),
        r matches FetchPlan::UseCached { img } ==> {
            &&& !log.spec_contains(url@)
            &&& cache.spec_media(url@) matches Some(c) && spec_image_like(img, c)
        },
        r matches FetchPlan::Get { download_url, id } ==> {
            &&& spec_needs_get(*log, *cache, url@)
            &&& download_url@ == spec_download_url(url@)
            &&& id@ == spec_media_id(url@)
        },
        spec_needs_get(*log, *cache, url@) ==> r is Get,
{
    if log.contains(url.as_str()) {
        return FetchPlan::SkipLogged;
    }
    if let Some(c) = cache.media(url.as_str()) {
        return FetchPlan::UseCached { img: c.duplicate() };
    }
    let resolved = resolve_media_url(url);
    FetchPlan::Get { download_url: resolved.download_url, id: resolved.id }
}

/// Absorbs the response of a media request into the run's state. On an
/// accepted content type the artifact is built, memoized in the cache, and
/// the locator is recorded in the dedup log; on an unsupported content type
/// nothing is recorded or memoized and the error names the condition. The
/// caller persists the returned artifact's bytes.
pub fn absorb_response(
    log: &mut DedupLog,
    cache: &mut LookupCache,
    url: &String,
    id: String,
    content_type: &String,
    data: Vec<u8>,
) -> (r: Result<Image, MediaError>)
    requires
        old(cache).wf(),
        old(cache).spec_media(url@) is None,
    ensures
        final(cache).wf(),
        match r {
            Ok(img) => {
                &&& img.wf()
                &&& spec_extension_of(content_type@) == Some(img.extension@)
                &&& img.id@ == id@
                &&& img.data@ == data@
                &&& final(log)@ == old(log)@.push(url@)
                &&& final(log).spec_contains(url@)
                &&& final(cache).spec_media(url@) matches Some(c) && spec_image_like(c, img)
                &&& forall|k2: Seq<char>|
                    #[trigger] final(cache).spec_name(k2) == old(cache).spec_name(k2)
            },
            Err(e) => {
                &&& e is UnsupportedContentType
                &&& spec_extension_of(content_type@) is None
                &&& final(log)@ == old(log)@
                &&& *final(cache) == *old(cache)
            },
        },
{
    let extension = match extension_of_content_type(content_type.as_str()) {
        Ok(ext) => ext,
        Err(e) => {
            return Err(e);
        },
    };
    let img = Image { extension, id, data };
    cache.remember_media(url.clone(), img.duplicate());
    log.record(url.clone());
    Ok(img)
}

/// Fetching a locator a second time issues no second request: once a fetch
/// has recorded the locator in the dedup log, no later plan for the same
/// locator is a request, in this run or any later one against the same log.
pub proof fn lemma_fetch_idempotent(
    log_before: DedupLog,
    log_after: DedupLog,
    cache: LookupCache,
    url: Seq<char>,
)
    requires
        log_after@ == log_before@.push(url),
    ensures
        !spec_needs_get(log_after, cache, url),
{
    assert(log_after@[log_after@.len() - 1] == url);
}

} // verus!

//! Saved posts: normalizing one page of the saved-content listing.
//!
//! A raw saved post is either a link post (it carries a link title) or a
//! text post; preview image URLs arrive HTML-entity-encoded and are decoded
//! before they are kept. The listing's pagination and every request stay
//! outside the library.

use vstd::prelude::*;

verus! {

/// What HTML-entity decoding yields for a text; a function of the text
/// alone.
pub uninterp spec fn html_decoded(s: Seq<char>) -> Seq<char>;

/// Relies on html-escape's `decode_html_entities`: decodes exact named and
/// numeric character references ending in `;`; the result depends on the
/// text alone.
#[verifier::external_body]
fn decode_html(s: &String) -> (r: String)
    ensures
        r@ == html_decoded(s@),
{
    html_escape::decode_html_entities(s.as_str()).into_owned()
}

/// One saved post, normalized.
pub struct SavedPost {
    /// The post's title: a link post's link title, else its own title.
    pub title: String,
    /// The prefixed subreddit name.
    pub subreddit_name: String,
    /// The permalink.
    pub permalink: String,
    /// The decoded preview image URLs.
    pub img_url: Vec<String>,
    /// The self text.
    pub body_text: String,
}

/// A listing of saved posts.
pub struct SavedList {
    posts: Vec<SavedPost>,
}

impl SavedList {
    /// A listing from its posts.
    pub fn new(posts: Vec<SavedPost>) -> (r: SavedList)
        ensures
            r.spec_posts() == posts,
    {
        SavedList { posts }
    }

    /// The posts.
    pub closed spec fn spec_posts(self) -> Vec<SavedPost> {
        self.posts
    }

    /// Reads the posts.
    pub fn posts(&self) -> (r: &Vec<SavedPost>)
        ensures
            r == self.spec_posts(),
    {
        &self.posts
    }
}

/// One saved post as the listing endpoint reports it, before normalizing.
pub struct RawSavedPost {
    /// The link title, present exactly on link posts.
    pub link_title: Option<String>,
    /// The post's own title.
    pub title: Option<String>,
    /// The prefixed subreddit name.
    pub subreddit_name_prefixed: String,
    /// The permalink.
    pub permalink: String,
    /// The self text.
    pub selftext: String,
    /// The preview image URLs, still HTML-entity-encoded.
    pub preview_urls: Vec<String>,
}

impl RawSavedPost {
    /// A raw post carries a title: its link title or its own.
    pub open spec fn wf(self) -> bool {
        self.link_title is Some || self.title is Some
    }
}

/// Normalizes one raw saved post: a link post takes its link title, a text
/// post its own; every preview URL is HTML-entity-decoded.
pub fn saved_post_of(raw: RawSavedPost) -> (r: SavedPost)
    requires
        raw.wf(),
    ensures
        r.title@ == if raw.link_title is Some {
            raw.link_title->Some_0@
        } else {
            raw.title->Some_0@
        },
        r.subreddit_name@ == raw.subreddit_name_prefixed@,
        r.permalink@ == raw.permalink@,
        r.body_text@ == raw.selftext@,
        r.img_url@.len() == raw.preview_urls@.len(),
        forall|i: int|
            0 <= i < raw.preview_urls@.len() ==> r.img_url@[i]@ == html_decoded(
                raw.preview_urls@[i]@,
            ),
{
    let RawSavedPost { link_title, title, subreddit_name_prefixed, permalink, selftext,
        preview_urls } = raw;
    let chosen_title = match link_title {
        Some(t) => t,
        None => match title {
            Some(t) => t,
            None => vstd::pervasive::unreached(),
        },
    };
    let mut img_url: Vec<String> = Vec::new();
    let mut i: usize = 0;
    while i < preview_urls.len()
        invariant
            i <= preview_urls.len(),
            img_url@.len() == i,
            forall|j: int| 0 <= j < i ==> img_url@[j]@ == html_decoded(preview_urls@[j]@),
        decreases preview_urls.len() - i,
    {
        img_url.push(decode_html(&preview_urls[i]));
        i = i + 1;
    }
    SavedPost {
        title: chosen_title,
        subreddit_name: subreddit_name_prefixed,
        permalink,
        img_url,
        body_text: selftext,
    }
}

/// Normalizes one whole page of raw saved posts, in page order.
#[verifier::loop_isolation(false)]
pub fn saved_posts_of(raws: Vec<RawSavedPost>) -> (r: Vec<SavedPost>)
    requires
        forall|i: int| 0 <= i < raws@.len() ==> (#[trigger] raws@[i]).wf(),
    ensures
        r@.len() == raws@.len(),
        forall|i: int|
            0 <= i < raws@.len() ==> {
                let p = #[trigger] r@[i];
                let q = raws@[i];
                &&& p.title@ == if q.link_title is Some {
                    q.link_title->Some_0@
                } else {
                    q.title->Some_0@
                }
                &&& p.subreddit_name@ == q.subreddit_name_prefixed@
                &&& p.permalink@ == q.permalink@
                &&& p.body_text@ == q.selftext@
                &&& p.img_url@.len() == q.preview_urls@.len()
                &&& forall|j: int|
                    0 <= j < q.preview_urls@.len() ==> p.img_url@[j]@ == html_decoded(
                        q.preview_urls@[j]@,
                    )
            },
{
    let mut raws = raws;
    let ghost q0 = raws@;
    let total = raws.len();
    proof {
        assert(q0.len() == total);
    }
    let mut r: Vec<SavedPost> = Vec::new();
    let mut i: usize = 0;
    while raws.len() > 0
        invariant
            q0.len() <= usize::MAX,
            i + raws@.len() == q0.len(),
            r@.len() == i,
            forall|j: int| 0 <= j < raws@.len() ==> raws@[j] == q0[i + j],
            forall|j: int| 0 <= j < q0.len() ==> (#[trigger] q0[j]).wf(),
            forall|j: int|
                0 <= j < i ==> {
                    let p = #[trigger] r@[j];
                    let q = q0[j];
                    &&& p.title@ == if q.link_title is Some {
                        q.link_title->Some_0@
                    } else {
                        q.title->Some_0@
                    }
                    &&& p.subreddit_name@ == q.subreddit_name_prefixed@
                    &&& p.permalink@ == q.permalink@
                    &&& p.body_text@ == q.selftext@
                    &&& p.img_url@.len() == q.preview_urls@.len()
                    &&& forall|k: int|
                        0 <= k < q.preview_urls@.len() ==> p.img_url@[k]@ == html_decoded(
                            q.preview_urls@[k]@,
                        )
                },
        decreases raws@.len(),
    {
        let raw = raws.remove(0);
        r.push(saved_post_of(raw));
        i = i + 1;
    }
    r
}

} // verus!

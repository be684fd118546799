//! Collection of a channel's uploads: a paged listing joined with a batched
//! detail lookup, merged newest first. The caller performs each request and
//! hands the response back.

use vstd::prelude::*;
use vstd::multiset::Multiset;
use vstd::string::*;
use crate::record::{clone_opt, Video};

verus! {

/// The largest page that is asked of the listing.
pub const PAGE_SIZE: u32 = 50;

/// The details of one video as the detail lookup reports them.
pub struct VideoDetails {
    pub video_id: String,
    pub title: Option<String>,
    pub description: Option<String>,
    pub created_at: i64,
    pub views: i64,
    pub likes: i64,
    pub comments: i64,
}

/// A request for one page of the uploads listing.
pub struct PageRequest {
    pub playlist_id: String,
    pub page_token: Option<String>,
    pub max_results: u32,
}

/// The uploads listing of a channel: the channel identifier with its first
/// two characters replaced by `UU`; none when it is shorter than two.
pub open spec fn uploads_id_of(c: Seq<char>) -> Option<Seq<char>> {
    if c.len() < 2 {
        None
    } else {
        Some("UU"@ + c.subrange(2, c.len() as int))
    }
}

pub open spec fn text_or_empty(o: Option<String>) -> Seq<char> {
    match o {
        Some(s) => s@,
        None => Seq::empty(),
    }
}

/// `v` is the entry made from the details `d`; absent texts become empty.
pub open spec fn made_from(v: Video, d: VideoDetails) -> bool {
    &&& v.video_id == d.video_id
    &&& v.title@ == text_or_empty(d.title)
    &&& v.description@ == text_or_empty(d.description)
    &&& v.created_at == d.created_at
    &&& v.views == d.views
    &&& v.likes == d.likes
    &&& v.comments == d.comments
}

/// Newest first: creation times never increase along the sequence.
pub open spec fn newest_first(s: Seq<Video>) -> bool {
    forall|i: int, j: int| 0 <= i < j < s.len() ==> s[i].created_at >= s[j].created_at
}

/// Relies on `String::push_str`: appends the characters of `t`.
#[verifier::external_body]
fn push_text(s: &mut String, t: &str)
    ensures
        final(s)@ == old(s)@ + t@,
{
    s.push_str(t)
}

/// The identifier of a channel's uploads listing.
pub fn uploads_playlist_id(channel_id: &str) -> (r: Option<String>)
    ensures
        match r {
            Some(p) => uploads_id_of(channel_id@) == Some(p@),
            None => uploads_id_of(channel_id@) is None,
        },
{
    let n = channel_id.unicode_len();
    if n < 2 {
        return None;
    }
    let rest = channel_id.substring_char(2, n);
    let mut id = "UU".to_owned();
    push_text(&mut id, rest);
    Some(id)
}

fn text_or_default(o: Option<String>) -> (r: String)
    ensures
        r@ == text_or_empty(o),
{
    match o {
        Some(s) => s,
        None => String::new(),
    }
}

/// The video entry made from looked-up details.
pub fn video_from_details(d: VideoDetails) -> (r: Video)
    ensures
        made_from(r, d),
{
    Video {
        video_id: d.video_id,
        title: text_or_default(d.title),
        description: text_or_default(d.description),
        created_at: d.created_at,
        views: d.views,
        likes: d.likes,
        comments: d.comments,
    }
}

proof fn lemma_insert_multiset(s: Seq<Video>, p: int, x: Video)
    requires
        0 <= p <= s.len(),
    ensures
        s.insert(p, x).to_multiset() =~= s.to_multiset().insert(x),
{
    broadcast use vstd::seq_lib::group_to_multiset_ensures;

    let t = s.insert(p, x);
    s.insert_ensures(p, x);
    assert(t.remove(p) =~= s);
    t.to_multiset_ensures();
    assert(t.contains(x)) by {
        assert(t[p] == x);
    }
    assert(t.to_multiset().remove(x) =~= s.to_multiset());
    assert(t.to_multiset().count(x) > 0);
}

/// The videos reordered newest first.
pub fn sort_newest_first(v: Vec<Video>) -> (r: Vec<Video>)
    ensures
        newest_first(r@),
        r@.to_multiset() == v@.to_multiset(),
{
    broadcast use vstd::seq_lib::group_to_multiset_ensures;

    let mut rest = v;
    let mut out: Vec<Video> = Vec::new();
    while rest.len() > 0
        invariant
            newest_first(out@),
            out@.to_multiset().add(rest@.to_multiset()) == v@.to_multiset(),
        decreases rest.len(),
    {
        let ghost before = rest@;
        let x = rest.pop().unwrap();
        assert(before =~= rest@.push(x));
        proof {
            rest@.to_multiset_ensures();
        }
        assert(before.to_multiset() =~= rest@.to_multiset().insert(x));
        let mut p: usize = 0;
        while p < out.len() && out[p].created_at > x.created_at
            invariant
                p <= out@.len(),
                forall|k: int| 0 <= k < p ==> out@[k].created_at > x.created_at,
            decreases out@.len() - p,
        {
            p = p + 1;
        }
        let ghost prev = out@;
        proof {
            lemma_insert_multiset(prev, p as int, x);
            prev.insert_ensures(p as int, x);
        }
        out.insert(p, x);
        assert(newest_first(out@)) by {
            assert forall|i: int, j: int| 0 <= i < j < out@.len() implies out@[i].created_at
                >= out@[j].created_at by {
                if j < p {
                } else if j == p {
                    assert(out@[i] == prev[i]);
                } else if i < p {
                    assert(out@[j] == prev[j - 1]);
                    assert(out@[i] == prev[i]);
                    if p < prev.len() {
                        assert(prev[p as int].created_at <= x.created_at);
                    }
                } else if i == p {
                    assert(out@[j] == prev[j - 1]);
                    assert(prev[p as int].created_at <= x.created_at);
                } else {
                    assert(out@[j] == prev[j - 1]);
                    assert(out@[i] == prev[i - 1]);
                }
            }
        }
        assert(out@.to_multiset() =~= prev.to_multiset().insert(x));
        assert(out@.to_multiset().add(rest@.to_multiset()) =~= prev.to_multiset().add(
            before.to_multiset(),
        ));
    }
    assert(rest@.to_multiset() =~= Multiset::empty());
    assert(out@.to_multiset().add(rest@.to_multiset()) =~= out@.to_multiset());
    out
}

/// Progress through the uploads listing of one channel.
pub struct VideoPager {
    pub playlist_id: String,
    /// The token of the page to request next; none for the first page.
    pub page_token: Option<String>,
    /// The next-page token of the page whose details are awaited.
    pub pending_token: Option<String>,
    /// The videos collected so far, in the order the listing gave them.
    pub videos: Vec<Video>,
    pub finished: bool,
}

impl VideoPager {
    /// A pager at the first page of the channel's uploads; none when the
    /// channel identifier is too short to name an uploads listing.
    pub fn new(channel_id: &str) -> (r: Option<VideoPager>)
        ensures
            match r {
                Some(p) => {
                    &&& uploads_id_of(channel_id@) == Some(p.playlist_id@)
                    &&& p.page_token is None
                    &&& p.pending_token is None
                    &&& p.videos@.len() == 0
                    &&& !p.finished
                },
                None => uploads_id_of(channel_id@) is None,
            },
    {
        match uploads_playlist_id(channel_id) {
            Some(playlist_id) => Some(
                VideoPager {
                    playlist_id,
                    page_token: None,
                    pending_token: None,
                    videos: Vec::new(),
                    finished: false,
                },
            ),
            None => None,
        }
    }

    /// The request for the current page.
    pub fn request(&self) -> (r: PageRequest)
        ensures
            r.playlist_id == self.playlist_id,
            r.page_token == self.page_token,
            r.max_results == PAGE_SIZE,
    {
        PageRequest {
            playlist_id: self.playlist_id.clone(),
            page_token: clone_opt(&self.page_token),
            max_results: PAGE_SIZE,
        }
    }

    /// A page of the listing arrived, as the video identifiers of its items
    /// and the token of the page after it. Returns the identifiers whose
    /// details are to be looked up, or none when the page is empty, which ends
    /// the listing.
    pub fn on_page(&mut self, item_ids: Vec<String>, next_page_token: Option<String>) -> (r:
        Option<Vec<String>>)
        ensures
            item_ids@.len() == 0 ==> r is None && *final(self) == (VideoPager {
                finished: true,
                ..*old(self)
            }),
            item_ids@.len() > 0 ==> r == Some(item_ids) && *final(self) == (VideoPager {
                pending_token: next_page_token,
                ..*old(self)
            }),
    {
        if item_ids.len() == 0 {
            self.finished = true;
            None
        } else {
            self.pending_token = next_page_token;
            Some(item_ids)
        }
    }

    /// The details of the current page's videos arrived; they are appended in
    /// order. Returns whether another page follows, to be requested after the
    /// pause between pages; when none follows the listing is finished.
    pub fn on_details(&mut self, details: Vec<VideoDetails>) -> (r: bool)
        ensures
            final(self).playlist_id == old(self).playlist_id,
            final(self).pending_token is None,
            final(self).videos@.len() == old(self).videos@.len() + details@.len(),
            forall|i: int|
                0 <= i < old(self).videos@.len() ==> final(self).videos@[i] == old(self).videos@[i],
            forall|i: int|
                0 <= i < details@.len() ==> made_from(
                    #[trigger] final(self).videos@[old(self).videos@.len() + i],
                    details@[i],
                ),
            r == old(self).pending_token is Some,
            r ==> final(self).page_token == old(self).pending_token && final(self).finished
                == old(self).finished,
            !r ==> final(self).page_token == old(self).page_token && final(self).finished,
    {
        let ghost start = self.videos@;
        let ghost all = details@;
        let mut rest = details;
        let ghost mut k: int = 0;
        while rest.len() > 0
            invariant
                0 <= k <= all.len(),
                rest@ == all.subrange(k, all.len() as int),
                rest@.len() == all.len() - k,
                self.playlist_id == old(self).playlist_id,
                self.page_token == old(self).page_token,
                self.pending_token == old(self).pending_token,
                self.finished == old(self).finished,
                self.videos@.len() == start.len() + k,
                forall|i: int| 0 <= i < start.len() ==> self.videos@[i] == start[i],
                forall|i: int|
                    0 <= i < k ==> made_from(#[trigger] self.videos@[start.len() + i], all[i]),
            decreases rest@.len(),
        {
            let d = rest.remove(0);
            assert(d == all[k]);
            let v = video_from_details(d);
            self.videos.push(v);
            proof {
                k = k + 1;
            }
            assert(rest@ =~= all.subrange(k, all.len() as int));
        }
        match self.pending_token.take() {
            Some(t) => {
                self.page_token = Some(t);
                true
            },
            None => {
                self.finished = true;
                false
            },
        }
    }

    /// The collected videos, newest first.
    pub fn into_videos(self) -> (r: Vec<Video>)
        ensures
            newest_first(r@),
            r@.to_multiset() == self.videos@.to_multiset(),
    {
        sort_newest_first(self.videos)
    }
}

} // verus!

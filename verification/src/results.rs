//! Search results: what a search response holds, which of its items are
//! videos, the stored results, and their `Debug` listing.
use vstd::prelude::*;
use vstd::string::*;
use ratatui_image::protocol::Protocol;
use crate::text::{debug_quoted, debug_str};

verus! {

#[verifier::external_type_specification]
#[verifier::external_body]
pub struct ExProtocol(Protocol);

/// One thumbnail image offered for a video.
pub struct ThumbnailInfo {
    pub url: String,
    pub width: u32,
    pub height: u32,
}

/// A video item of a search response.
pub struct VideoEntry {
    /// The video's title.
    pub name: String,
    /// The video's id, the part of its watch URL after `v=`.
    pub id: String,
    pub thumbnails: Vec<ThumbnailInfo>,
}

/// One item of a search response: a video, or anything else (a channel or
/// a playlist), which the results leave out.
pub enum SearchItem {
    Video(VideoEntry),
    Other,
}

/// What the search service answered.
pub enum SearchResponse {
    /// The query failed.
    Failed,
    /// The query succeeded; `listing` is the `Debug` rendering of the whole
    /// response, shown in the debug footer when it holds no item.
    Items { items: Vec<SearchItem>, listing: String },
}

/// A video that the user can pick.
#[derive(Clone)]
pub struct YoutubeResult {
    pub video_title: String,
    /// The video's id.
    pub url: String,
    pub thumbnail: Option<Protocol>,
}

/// The videos among the items of a response, in their order.
pub open spec fn video_items(items: Seq<SearchItem>) -> Seq<VideoEntry>
    decreases items.len(),
{
    if items.len() == 0 {
        Seq::empty()
    } else {
        let rest = video_items(items.drop_first());
        match items[0] {
            SearchItem::Video(v) => seq![v] + rest,
            SearchItem::Other => rest,
        }
    }
}

/// The number of video items in a sequence of items.
pub open spec fn count_videos(items: Seq<SearchItem>) -> nat
    decreases items.len(),
{
    if items.len() == 0 {
        0
    } else {
        count_videos(items.drop_last()) + if items.last() is Video {
            1nat
        } else {
            0nat
        }
    }
}

/// Appending a video item appends that video to the videos; appending any
/// other item leaves them as they were. With `video_items` of no items
/// being empty, this fixes the videos of every answer: each video item, in
/// order, and nothing else.
pub proof fn video_items_of_appended(s: Seq<SearchItem>, item: SearchItem)
    ensures
        video_items(Seq::<SearchItem>::empty()) == Seq::<VideoEntry>::empty(),
        item matches SearchItem::Video(v) ==> video_items(s.push(item)) == video_items(s).push(v),
        item is Other ==> video_items(s.push(item)) == video_items(s),
    decreases s.len(),
{
    if s.len() > 0 {
        video_items_of_appended(s.drop_first(), item);
        assert(s.push(item).drop_first() =~= s.drop_first().push(item));
        match s[0] {
            SearchItem::Video(v0) => {
                match item {
                    SearchItem::Video(v) => {
                        assert(seq![v0] + video_items(s.drop_first()).push(v) =~= (seq![v0]
                            + video_items(s.drop_first())).push(v));
                    },
                    SearchItem::Other => {},
                }
            },
            SearchItem::Other => {},
        }
    } else {
        assert(s.push(item).drop_first() =~= Seq::<SearchItem>::empty());
        match item {
            SearchItem::Video(v) => {
                assert(seq![v] + Seq::<VideoEntry>::empty() =~= Seq::<VideoEntry>::empty().push(v));
            },
            SearchItem::Other => {},
        }
    }
}

/// The videos of an answer are as many as its video items, and every one of
/// them is the video of one of its items.
pub proof fn video_items_keeps_every_video(items: Seq<SearchItem>)
    ensures
        video_items(items).len() == count_videos(items),
        forall|k: int|
            0 <= k < video_items(items).len() ==> exists|j: int|
                0 <= j < items.len() && #[trigger] items[j] == SearchItem::Video(
                    #[trigger] video_items(items)[k],
                ),
    decreases items.len(),
{
    if items.len() > 0 {
        let init = items.drop_last();
        video_items_keeps_every_video(init);
        assert(init.push(items.last()) =~= items);
        video_items_of_appended(init, items.last());
        assert forall|k: int| 0 <= k < video_items(items).len() implies exists|j: int|
            0 <= j < items.len() && #[trigger] items[j] == SearchItem::Video(
                #[trigger] video_items(items)[k],
            ) by {
            if k < video_items(init).len() {
                assert(video_items(items)[k] == video_items(init)[k]);
                let j = choose|j: int|
                    0 <= j < init.len() && #[trigger] init[j] == SearchItem::Video(
                        video_items(init)[k],
                    );
                assert(items[j] == init[j]);
            } else {
                assert(items[items.len() - 1] == items.last());
            }
        }
    }
}

/// The `Debug` rendering of one result. The thumbnail is not printable, so
/// its field shows the video's id again.
pub open spec fn result_debug(title: Seq<char>, url: Seq<char>) -> Seq<char> {
    "YoutubeResult { video_title: "@ + debug_quoted(title) + ", url: "@ + debug_quoted(url)
        + ", thumbnail: "@ + debug_quoted(url) + " }"@
}

/// The entries of a list rendering, separated by `, `.
pub open spec fn joined_results(rs: Seq<YoutubeResult>) -> Seq<char>
    decreases rs.len(),
{
    if rs.len() == 0 {
        Seq::empty()
    } else if rs.len() == 1 {
        result_debug(rs[0].video_title@, rs[0].url@)
    } else {
        joined_results(rs.drop_last()) + ", "@ + result_debug(
            rs.last().video_title@,
            rs.last().url@,
        )
    }
}

/// The `Debug` rendering of a list of results: `[`, the entries, `]`.
pub open spec fn results_debug(rs: Seq<YoutubeResult>) -> Seq<char> {
    "["@ + joined_results(rs) + "]"@
}

impl YoutubeResult {
    /// The `Debug` rendering of this result.
    pub fn debug_string(&self) -> (r: String)
        ensures
            r@ == result_debug(self.video_title@, self.url@),
    {
        let title = debug_str(self.video_title.as_str());
        let url = debug_str(self.url.as_str());
        let mut r = String::from_str("YoutubeResult { video_title: ");
        r.append(title.as_str());
        r.append(", url: ");
        r.append(url.as_str());
        r.append(", thumbnail: ");
        r.append(url.as_str());
        r.append(" }");
        r
    }
}

/// The `Debug` rendering of a list of results.
pub fn debug_results(rs: &Vec<YoutubeResult>) -> (r: String)
    ensures
        r@ == results_debug(rs@),
{
    let mut body = String::new();
    let mut i: usize = 0;
    while i < rs.len()
        invariant
            i <= rs.len(),
            body@ == joined_results(rs@.take(i as int)),
        decreases rs.len() - i,
    {
        let entry = rs[i].debug_string();
        if i != 0 {
            body.append(", ");
        }
        body.append(entry.as_str());
        assert(rs@.take(i + 1).drop_last() =~= rs@.take(i as int));
        i = i + 1;
    }
    assert(rs@.take(rs.len() as int) =~= rs@);
    let mut r = String::from_str("[");
    r.append(body.as_str());
    r.append("]");
    r
}

/// Takes the videos out of the items of a response, keeping their order.
pub fn select_videos(items: Vec<SearchItem>) -> (r: Vec<VideoEntry>)
    ensures
        r@ == video_items(items@),
{
    let ghost all = items@;
    let mut rest = items;
    let mut out: Vec<VideoEntry> = Vec::new();
    while rest.len() > 0
        invariant
            video_items(all) == out@ + video_items(rest@),
        decreases rest.len(),
    {
        let ghost before = rest@;
        let item = rest.remove(0);
        assert(rest@ =~= before.drop_first());
        match item {
            SearchItem::Video(v) => {
                out.push(v);
            },
            SearchItem::Other => {},
        }
    }
    out
}

} // verus!

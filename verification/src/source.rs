//! The stream source: turns the raw pieces a video-platform query hands back
//! (channel thumbnails, search items, live-streaming details) into the
//! complete batch of upcoming-stream records, or a fetch error.

use vstd::prelude::*;
use crate::time::{localized_start_time, rfc3339_parses, is_localized_time};

verus! {

/// One upcoming live broadcast, ready for rendering.
#[derive(Clone, Debug)]
pub struct UpcomingStream {
    pub id: String,
    pub title: String,
    pub published_at: String,
    pub thumbnail_url: String,
    pub start_time: String,
    pub channel_icon_url: String,
}

/// The thumbnail variants a platform item may carry, each as its URL.
#[derive(Clone, Debug)]
pub struct ThumbnailSet {
    pub maxres: Option<String>,
    pub high: Option<String>,
    pub medium: Option<String>,
    pub default: Option<String>,
    pub standard: Option<String>,
}

/// One search result: the video id and the snippet fields the pipeline
/// reads, each absent when the platform left it out.
#[derive(Clone, Debug)]
pub struct SearchItem {
    pub video_id: Option<String>,
    pub title: Option<String>,
    pub published_at: Option<String>,
    pub thumbnails: Option<ThumbnailSet>,
}

/// The live-streaming details of one video: its scheduled start timestamp,
/// absent when the platform left it out.
#[derive(Clone, Debug)]
pub struct VideoDetail {
    pub scheduled_start_time: Option<String>,
}

/// Why a fetch failed; any one aborts the whole batch.
#[derive(Clone, Copy, Debug, PartialEq, Eq, Structural)]
pub enum FetchError {
    /// The channel lookup returned no usable channel record.
    NoChannel,
    /// A thumbnail set carries none of its variants.
    MissingThumbnail,
    /// A search or details response carries no item list.
    NoSearchResults,
    /// A search item carries no video id.
    MissingVideoId,
    /// A search item's snippet lacks its title or publication timestamp.
    MissingSnippet,
    /// A video's details lack the scheduled start timestamp.
    MissingStartTime,
    /// A scheduled start timestamp is not valid RFC3339.
    UnparseableTimestamp,
    /// The details response has a different number of items than the search.
    CountMismatch,
}

/// The URL of the highest-priority thumbnail variant present:
/// max-resolution, then high, medium, default, standard.
pub open spec fn spec_pick(t: ThumbnailSet) -> Option<Seq<char>> {
    if t.maxres is Some {
        Some(t.maxres.unwrap()@)
    } else if t.high is Some {
        Some(t.high.unwrap()@)
    } else if t.medium is Some {
        Some(t.medium.unwrap()@)
    } else if t.default is Some {
        Some(t.default.unwrap()@)
    } else if t.standard is Some {
        Some(t.standard.unwrap()@)
    } else {
        None
    }
}

/// Picks the best available thumbnail variant, `None` exactly when the set
/// is empty.
pub fn pick_thumbnail(t: &ThumbnailSet) -> (r: Option<String>)
    ensures
        match spec_pick(*t) {
            Some(u) => r matches Some(s) && s@ == u,
            None => r is None,
        },
{
    if let Some(u) = &t.maxres {
        Some(u.clone())
    } else if let Some(u) = &t.high {
        Some(u.clone())
    } else if let Some(u) = &t.medium {
        Some(u.clone())
    } else if let Some(u) = &t.default {
        Some(u.clone())
    } else if let Some(u) = &t.standard {
        Some(u.clone())
    } else {
        None
    }
}

/// Resolves the owning channel's icon from its thumbnail lookup: the lookup
/// may have produced no thumbnail set at all (no channel), or one with no
/// variant present.
pub fn resolve_channel_icon(channel_thumbs: &Option<ThumbnailSet>) -> (r: Result<String, FetchError>)
    ensures
        match *channel_thumbs {
            None => r == Err::<String, FetchError>(FetchError::NoChannel),
            Some(t) => match spec_pick(t) {
                Some(u) => r matches Ok(s) && s@ == u,
                None => r == Err::<String, FetchError>(FetchError::MissingThumbnail),
            },
        },
{
    match channel_thumbs {
        None => Err(FetchError::NoChannel),
        Some(t) => match pick_thumbnail(t) {
            Some(u) => Ok(u),
            None => Err(FetchError::MissingThumbnail),
        },
    }
}

/// The views of the video ids of a batch of search items; meaningful when
/// every id is present.
pub open spec fn spec_ids(items: Seq<SearchItem>) -> Seq<Seq<char>> {
    items.map_values(|it: SearchItem| it.video_id.unwrap()@)
}

/// The ids joined with single commas, in order.
pub open spec fn spec_join_ids(ids: Seq<Seq<char>>) -> Seq<char>
    decreases ids.len(),
{
    if ids.len() == 0 {
        Seq::empty()
    } else if ids.len() == 1 {
        ids[0]
    } else {
        spec_join_ids(ids.drop_last()) + seq![','] + ids.last()
    }
}

/// The comma-joined id list for the follow-up details request; fails when
/// any search item lacks its video id.
pub fn video_id_list(items: &Vec<SearchItem>) -> (r: Result<String, FetchError>)
    ensures
        r is Ok <==> (forall|j: int| 0 <= j < items@.len() ==> items@[j].video_id is Some),
        r matches Ok(s) ==> s@ == spec_join_ids(spec_ids(items@)),
        r matches Err(e) ==> e == FetchError::MissingVideoId,
{
    let mut out = String::new();
    let mut i: usize = 0;
    while i < items.len()
        invariant
            i <= items@.len(),
            forall|j: int| 0 <= j < i ==> items@[j].video_id is Some,
            out@ == spec_join_ids(spec_ids(items@).subrange(0, i as int)),
        decreases items@.len() - i,
    {
        match &items[i].video_id {
            Some(id) => {
                if i > 0 {
                    out.append(",");
                }
                out.append(id.as_str());
                proof {
                    reveal_strlit(",");
                    let ss = spec_ids(items@);
                    assert(ss[i as int] == items@[i as int].video_id.unwrap()@);
                    assert(ss.subrange(0, i + 1 as int).drop_last() =~= ss.subrange(0, i as int));
                    assert(ss.subrange(0, i + 1 as int).last() == ss[i as int]);
                    assert(out@ =~= spec_join_ids(ss.subrange(0, i + 1 as int)));
                }
            },
            None => {
                return Err(FetchError::MissingVideoId);
            },
        }
        i = i + 1;
    }
    proof {
        assert(spec_ids(items@).subrange(0, items@.len() as int) =~= spec_ids(items@));
    }
    Ok(out)
}

/// What is wrong with one video's details, if anything.
pub open spec fn detail_error(d: VideoDetail) -> Option<FetchError> {
    match d.scheduled_start_time {
        None => Some(FetchError::MissingStartTime),
        Some(t) => if !rfc3339_parses(t@) {
            Some(FetchError::UnparseableTimestamp)
        } else {
            None
        },
    }
}

/// The first details error at or after position `k`, if any.
pub open spec fn details_error_from(ds: Seq<VideoDetail>, k: int) -> Option<FetchError>
    decreases ds.len() - k,
{
    if k < 0 || k >= ds.len() {
        None
    } else if detail_error(ds[k]) is Some {
        detail_error(ds[k])
    } else {
        details_error_from(ds, k + 1)
    }
}

/// What is wrong with one search item, if anything, in the order the fields
/// are read: thumbnails, then video id, then the other snippet fields.
pub open spec fn item_error(it: SearchItem) -> Option<FetchError> {
    if it.thumbnails is None || spec_pick(it.thumbnails.unwrap()) is None {
        Some(FetchError::MissingThumbnail)
    } else if it.video_id is None {
        Some(FetchError::MissingVideoId)
    } else if it.title is None || it.published_at is None {
        Some(FetchError::MissingSnippet)
    } else {
        None
    }
}

/// The first search-item error at or after position `k`, if any.
pub open spec fn items_error_from(its: Seq<SearchItem>, k: int) -> Option<FetchError>
    decreases its.len() - k,
{
    if k < 0 || k >= its.len() {
        None
    } else if item_error(its[k]) is Some {
        item_error(its[k])
    } else {
        items_error_from(its, k + 1)
    }
}

/// The error a batch build fails with, if any, in the order the pipeline
/// reads its inputs: channel icon, response structures, per-video details,
/// result counts, then per-item snippet fields.
pub open spec fn spec_build_error(
    ct: Option<ThumbnailSet>,
    its: Option<Seq<SearchItem>>,
    ds: Option<Seq<VideoDetail>>,
) -> Option<FetchError> {
    if ct is None {
        Some(FetchError::NoChannel)
    } else if spec_pick(ct.unwrap()) is None {
        Some(FetchError::MissingThumbnail)
    } else if its is None || ds is None {
        Some(FetchError::NoSearchResults)
    } else if details_error_from(ds.unwrap(), 0) is Some {
        details_error_from(ds.unwrap(), 0)
    } else if its.unwrap().len() != ds.unwrap().len() {
        Some(FetchError::CountMismatch)
    } else if items_error_from(its.unwrap(), 0) is Some {
        items_error_from(its.unwrap(), 0)
    } else {
        None
    }
}

/// The item list a search or details response carries, as a sequence.
pub open spec fn opt_items_view(o: Option<Vec<SearchItem>>) -> Option<Seq<SearchItem>> {
    match o {
        Some(v) => Some(v@),
        None => None,
    }
}

/// The item list a details response carries, as a sequence.
pub open spec fn opt_details_view(o: Option<Vec<VideoDetail>>) -> Option<Seq<VideoDetail>> {
    match o {
        Some(v) => Some(v@),
        None => None,
    }
}

/// How one upcoming-stream record is derived from its search item and the
/// channel icon: every field copied or resolved, the start time a localized
/// rendering of some well-formed instant.
pub open spec fn stream_matches(st: UpcomingStream, it: SearchItem, icon: Seq<char>) -> bool {
    &&& st.id@ == it.video_id.unwrap()@
    &&& st.title@ == it.title.unwrap()@
    &&& st.published_at@ == it.published_at.unwrap()@
    &&& st.thumbnail_url@ == spec_pick(it.thumbnails.unwrap()).unwrap()
    &&& is_localized_time(st.start_time@)
    &&& st.channel_icon_url@ == icon
}

/// Builds the complete batch of upcoming-stream records from what the
/// platform queries handed back, or fails with the first error met, in the
/// order `spec_build_error` gives. On success there is one record per search
/// item, in search order.
pub fn build_upcoming_streams(
    channel_thumbs: &Option<ThumbnailSet>,
    items: &Option<Vec<SearchItem>>,
    details: &Option<Vec<VideoDetail>>,
) -> (r: Result<Vec<UpcomingStream>, FetchError>)
    ensures
        r is Err <==> spec_build_error(
            *channel_thumbs,
            opt_items_view(*items),
            opt_details_view(*details),
        ) is Some,
        r matches Err(e) ==> Some(e) == spec_build_error(
            *channel_thumbs,
            opt_items_view(*items),
            opt_details_view(*details),
        ),
        r matches Ok(v) ==> {
            &&& items.is_some()
            &&& v@.len() == items.unwrap()@.len()
            &&& channel_thumbs.is_some()
            &&& forall|i: int|
                0 <= i < v@.len() ==> stream_matches(
                    v@[i],
                    items.unwrap()@[i],
                    spec_pick(channel_thumbs.unwrap()).unwrap(),
                )
        },
{
    let icon = match resolve_channel_icon(channel_thumbs) {
        Ok(u) => u,
        Err(e) => {
            return Err(e);
        },
    };
    let its = match items {
        Some(v) => v,
        None => {
            return Err(FetchError::NoSearchResults);
        },
    };
    let ds = match details {
        Some(v) => v,
        None => {
            return Err(FetchError::NoSearchResults);
        },
    };

    let mut times: Vec<String> = Vec::new();
    let mut i: usize = 0;
    while i < ds.len()
        invariant
            i <= ds@.len(),
            times@.len() == i,
            opt_items_view(*items) == Some(its@),
            opt_details_view(*details) == Some(ds@),
            channel_thumbs.is_some(),
            spec_pick(channel_thumbs.unwrap()) == Some(icon@),
            forall|j: int| 0 <= j < i ==> is_localized_time(times@[j]@),
            details_error_from(ds@, 0) == details_error_from(ds@, i as int),
        decreases ds@.len() - i,
    {
        match &ds[i].scheduled_start_time {
            None => {
                proof {
                    assert(detail_error(ds@[i as int]) == Some(FetchError::MissingStartTime));
                }
                return Err(FetchError::MissingStartTime);
            },
            Some(ts) => {
                match localized_start_time(ts.as_str()) {
                    None => {
                        proof {
                            assert(detail_error(ds@[i as int])
                                == Some(FetchError::UnparseableTimestamp));
                        }
                        return Err(FetchError::UnparseableTimestamp);
                    },
                    Some(t) => {
                        times.push(t);
                    },
                }
            },
        }
        i = i + 1;
    }
    proof {
        assert(details_error_from(ds@, ds@.len() as int) is None);
    }

    if its.len() != ds.len() {
        return Err(FetchError::CountMismatch);
    }

    let mut out: Vec<UpcomingStream> = Vec::new();
    let mut k: usize = 0;
    while k < its.len()
        invariant
            k <= its@.len(),
            its@.len() == ds@.len(),
            times@.len() == ds@.len(),
            opt_items_view(*items) == Some(its@),
            opt_details_view(*details) == Some(ds@),
            forall|j: int| 0 <= j < times@.len() ==> is_localized_time(times@[j]@),
            details_error_from(ds@, 0) is None,
            out@.len() == k,
            channel_thumbs.is_some(),
            spec_pick(channel_thumbs.unwrap()) == Some(icon@),
            forall|j: int|
                0 <= j < k ==> stream_matches(
                    out@[j],
                    its@[j],
                    spec_pick(channel_thumbs.unwrap()).unwrap(),
                ),
            items_error_from(its@, 0) == items_error_from(its@, k as int),
        decreases its@.len() - k,
    {
        let it = &its[k];
        let thumb = match &it.thumbnails {
            None => {
                proof {
                    assert(item_error(its@[k as int]) == Some(FetchError::MissingThumbnail));
                }
                return Err(FetchError::MissingThumbnail);
            },
            Some(t) => match pick_thumbnail(t) {
                None => {
                    proof {
                        assert(item_error(its@[k as int]) == Some(FetchError::MissingThumbnail));
                    }
                    return Err(FetchError::MissingThumbnail);
                },
                Some(u) => u,
            },
        };
        let vid = match &it.video_id {
            None => {
                proof {
                    assert(item_error(its@[k as int]) == Some(FetchError::MissingVideoId));
                }
                return Err(FetchError::MissingVideoId);
            },
            Some(v) => v.clone(),
        };
        let title = match &it.title {
            None => {
                proof {
                    assert(item_error(its@[k as int]) == Some(FetchError::MissingSnippet));
                }
                return Err(FetchError::MissingSnippet);
            },
            Some(v) => v.clone(),
        };
        let published_at = match &it.published_at {
            None => {
                proof {
                    assert(item_error(its@[k as int]) == Some(FetchError::MissingSnippet));
                }
                return Err(FetchError::MissingSnippet);
            },
            Some(v) => v.clone(),
        };
        let start_time = times[k].clone();
        let channel_icon_url = icon.clone();
        let st = UpcomingStream {
            id: vid,
            title,
            published_at,
            thumbnail_url: thumb,
            start_time,
            channel_icon_url,
        };
        out.push(st);
        k = k + 1;
    }
    proof {
        assert(items_error_from(its@, its@.len() as int) is None);
    }
    Ok(out)
}

} // verus!

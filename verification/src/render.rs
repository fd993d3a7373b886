//! The notification renderer: a pure, total, order-preserving mapping from
//! upcoming-stream records to display-ready notification cards.

use vstd::prelude::*;
use crate::source::UpcomingStream;

verus! {

/// One display-ready notification card, derived one-to-one from an
/// upcoming-stream record.
#[derive(Clone, Debug)]
pub struct NotificationCard {
    /// The stream's display title.
    pub title: String,
    /// The clickable watch link, derived from the video id.
    pub url: String,
    /// The small preview image.
    pub thumbnail_url: String,
    /// The label of the card's one text field.
    pub field_name: String,
    /// The field's text: the localized scheduled start time.
    pub field_value: String,
    /// The large preview image.
    pub image_url: String,
}

/// The watch link for a video id.
pub open spec fn spec_watch_url(id: Seq<char>) -> Seq<char> {
    "https://www.youtube.com/watch?v="@ + id
}

/// How one card is derived from its stream record: title copied, link built
/// from the id, both images the stream's thumbnail, and the one labeled
/// field holding the start time.
pub open spec fn card_matches(c: NotificationCard, s: UpcomingStream) -> bool {
    &&& c.title@ == s.title@
    &&& c.url@ == spec_watch_url(s.id@)
    &&& c.thumbnail_url@ == s.thumbnail_url@
    &&& c.field_name@ == "開始時刻"@
    &&& c.field_value@ == s.start_time@
    &&& c.image_url@ == s.thumbnail_url@
}

/// The watch link for a video id.
pub fn watch_url(id: &String) -> (r: String)
    ensures
        r@ == spec_watch_url(id@),
{
    let mut s = String::new();
    s.append("https://www.youtube.com/watch?v=");
    s.append(id.as_str());
    proof {
        assert(s@ =~= spec_watch_url(id@));
    }
    s
}

/// Renders one card per stream record, in order; never fails, and an empty
/// input yields an empty output.
pub fn render(streams: &Vec<UpcomingStream>) -> (r: Vec<NotificationCard>)
    ensures
        r@.len() == streams@.len(),
        forall|i: int| 0 <= i < r@.len() ==> card_matches(r@[i], streams@[i]),
{
    let mut out: Vec<NotificationCard> = Vec::new();
    let mut i: usize = 0;
    while i < streams.len()
        invariant
            i <= streams@.len(),
            out@.len() == i,
            forall|j: int| 0 <= j < i ==> card_matches(out@[j], streams@[j]),
        decreases streams@.len() - i,
    {
        let s = &streams[i];
        let mut field_name = String::new();
        field_name.append("開始時刻");
        let card = NotificationCard {
            title: s.title.clone(),
            url: watch_url(&s.id),
            thumbnail_url: s.thumbnail_url.clone(),
            field_name,
            field_value: s.start_time.clone(),
            image_url: s.thumbnail_url.clone(),
        };
        proof {
            assert(card.field_name@ =~= "開始時刻"@);
        }
        out.push(card);
        i = i + 1;
    }
    out
}

} // verus!

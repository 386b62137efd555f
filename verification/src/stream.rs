//! Building the manifest-fetch URL for a feed and picking the feed
//! identifier a league expects.

use vstd::prelude::*;
use crate::error::StreamError;
use crate::types::{cdn_code, date_dash_seq, sport_code, Cdn, Date, MediaItem, Sport};

verus! {

/// The provider's manifest-fetch URL for one feed:
/// `host/getM3U8.php?league=..&date=..&id=..&cdn=..`.
pub open spec fn master_link_seq(
    host: Seq<char>,
    sport: Sport,
    date: Date,
    id: Seq<char>,
    cdn: Cdn,
) -> Seq<char> {
    host + "/getM3U8.php?league="@ + sport_code(sport) + "&date="@ + date_dash_seq(date) + "&id="@
        + id + "&cdn="@ + cdn_code(cdn)
}

/// Builds the manifest-fetch URL verbatim; nothing is downloaded.
pub fn master_link(host: &str, sport: Sport, date: &Date, id: &str, cdn: Cdn) -> (r: String)
    ensures
        r@ == master_link_seq(host@, sport, *date, id@, cdn),
{
    let mut r = String::from_str(host);
    r.append("/getM3U8.php?league=");
    r.append(sport.code());
    r.append("&date=");
    let date_text = crate::types::fmt_date_dash(date);
    r.append(date_text.as_str());
    r.append("&id=");
    r.append(id);
    r.append("&cdn=");
    r.append(cdn.code());
    r
}

/// The feed identifier the provider expects for one media item: the
/// playback id for hockey, the numeric item id (rendered in decimal)
/// for baseball. A missing identifier is a malformed listing.
pub fn stream_id_of(sport: Sport, item: &MediaItem) -> (r: Result<String, StreamError>)
    ensures
        match sport {
            Sport::Nhl => match item.media_playback_id {
                Some(ref p) => r matches Ok(s) && s@ == p@,
                None => r == Err::<String, StreamError>(StreamError::ParseError),
            },
            Sport::Mlb => match item.id {
                Some(n) => r matches Ok(s) && s@ == crate::fmt::dec_seq(n as nat),
                None => r == Err::<String, StreamError>(StreamError::ParseError),
            },
        },
{
    match sport {
        Sport::Nhl => match &item.media_playback_id {
            Some(p) => Ok(p.clone()),
            None => Err(StreamError::ParseError),
        },
        Sport::Mlb => match item.id {
            Some(n) => Ok(crate::fmt::fmt_u64(n)),
            None => Err(StreamError::ParseError),
        },
    }
}

} // verus!

//! The schedule/content client's decision logic. The HTTP fetch and the
//! JSON decode happen at the program's edge; these functions take the
//! outcome of that work as plain values and settle exactly what the
//! client returns for each of them.

use vstd::prelude::*;
use crate::error::StreamError;
use crate::types::{Date, Epg, Game, GameContent, Schedule};

verus! {

/// What came back from a fetch-and-decode of an endpoint: nothing at
/// all (the endpoint was unreachable or answered with failure), a body
/// that would not decode, or a decoded value.
pub enum Fetched<T> {
    Unreachable,
    Undecodable,
    Value(T),
}

/// Builds the schedule for `date` from the fetch outcome: the games
/// keep the upstream response order, an unreachable endpoint is a
/// network error and a malformed body a parse error — never an empty
/// schedule.
pub fn schedule_result(date: Date, fetched: Fetched<Vec<Game>>) -> (r: Result<
    Schedule,
    StreamError,
>)
    ensures
        match fetched {
            Fetched::Unreachable => r == Err::<Schedule, StreamError>(StreamError::NetworkError),
            Fetched::Undecodable => r == Err::<Schedule, StreamError>(StreamError::ParseError),
            Fetched::Value(games) => r matches Ok(s) && s.date == date && s.games@ == games@,
        },
{
    match fetched {
        Fetched::Unreachable => Err(StreamError::NetworkError),
        Fetched::Undecodable => Err(StreamError::ParseError),
        Fetched::Value(games) => Ok(Schedule { date, games }),
    }
}

/// Builds the per-game content from the fetch outcome, under the same
/// error taxonomy as the schedule.
pub fn content_result(fetched: Fetched<GameContent>) -> (r: Result<GameContent, StreamError>)
    ensures
        match fetched {
            Fetched::Unreachable => r == Err::<GameContent, StreamError>(StreamError::NetworkError),
            Fetched::Undecodable => r == Err::<GameContent, StreamError>(StreamError::ParseError),
            Fetched::Value(c) => r matches Ok(rc) && rc.epg == c.epg,
        },
{
    match fetched {
        Fetched::Unreachable => Err(StreamError::NetworkError),
        Fetched::Undecodable => Err(StreamError::ParseError),
        Fetched::Value(c) => Ok(c),
    }
}

/// Hands out the EPG listing of a game's content. An absent listing
/// means no streams have been published yet: a condition of its own,
/// not a parse failure.
pub fn epg_list(content: GameContent) -> (r: Result<Vec<Epg>, StreamError>)
    ensures
        match content.epg {
            Some(epgs) => r matches Ok(v) && v@ == epgs@,
            None => r == Err::<Vec<Epg>, StreamError>(StreamError::NoStreamsAvailable),
        },
{
    match content.epg {
        Some(epgs) => Ok(epgs),
        None => Err(StreamError::NoStreamsAvailable),
    }
}

/// Whether an EPG grouping carries the broadcast feeds this tool
/// offers: the league TV listing.
pub open spec fn is_tv_epg_spec(title: Seq<char>) -> bool {
    title == "NHLTV"@ || title == "MLBTV"@
}

/// Tests whether an EPG grouping is the league TV listing.
pub fn is_tv_epg(title: &str) -> (r: bool)
    ensures
        r == is_tv_epg_spec(title@),
{
    crate::text::str_eq(title, "NHLTV") || crate::text::str_eq(title, "MLBTV")
}

} // verus!

//! The data model: sport, CDN and quality selectors, calendar dates,
//! time-zone offsets, and the in-memory schedule (games, feeds, media
//! listings) fetched fresh on every run.

use vstd::prelude::*;
use crate::fmt::{dec_seq, pad2_seq, pad4_seq};

verus! {

/// Which league's stats endpoint is queried.
#[derive(Clone, Copy, Debug, PartialEq, Eq, Structural)]
pub enum Sport {
    Nhl,
    Mlb,
}

/// The league code as it appears in request URLs.
pub open spec fn sport_code(s: Sport) -> Seq<char> {
    match s {
        Sport::Nhl => "nhl"@,
        Sport::Mlb => "mlb"@,
    }
}

impl Sport {
    /// The league code as it appears in request URLs.
    pub fn code(&self) -> (r: &'static str)
        ensures
            r@ == sport_code(*self),
    {
        match self {
            Sport::Nhl => "nhl",
            Sport::Mlb => "mlb",
        }
    }
}

/// Which upstream CDN's manifest endpoint is queried.
#[derive(Clone, Copy, Debug, PartialEq, Eq, Structural)]
pub enum Cdn {
    Akamai,
    Level3,
}

/// The CDN code as it appears in request URLs.
pub open spec fn cdn_code(c: Cdn) -> Seq<char> {
    match c {
        Cdn::Akamai => "akc"@,
        Cdn::Level3 => "l3c"@,
    }
}

impl Cdn {
    /// The CDN code as it appears in request URLs.
    pub fn code(&self) -> (r: &'static str)
        ensures
            r@ == cdn_code(*self),
    {
        match self {
            Cdn::Akamai => "akc",
            Cdn::Level3 => "l3c",
        }
    }
}

/// A quality tier, named after the vertical resolution of the variant it
/// selects out of a master manifest.
#[derive(Clone, Copy, Debug, PartialEq, Eq, Structural)]
pub enum Quality {
    Q216,
    Q288,
    Q360,
    Q504,
    Q540,
    Q720,
}

impl Quality {
    /// The vertical resolution this tier selects.
    pub open spec fn spec_height(self) -> nat {
        match self {
            Quality::Q216 => 216,
            Quality::Q288 => 288,
            Quality::Q360 => 360,
            Quality::Q504 => 504,
            Quality::Q540 => 540,
            Quality::Q720 => 720,
        }
    }

    /// The vertical resolution this tier selects.
    pub fn height(&self) -> (r: u64)
        ensures
            r as nat == self.spec_height(),
    {
        match self {
            Quality::Q216 => 216,
            Quality::Q288 => 288,
            Quality::Q360 => 360,
            Quality::Q504 => 504,
            Quality::Q540 => 540,
            Quality::Q720 => 720,
        }
    }
}

/// A calendar date, held as plain year / month / day numbers.
#[derive(Clone, Copy, Debug, PartialEq, Eq, Structural)]
pub struct Date {
    pub year: u64,
    pub month: u64,
    pub day: u64,
}

impl Date {
    /// Month and day lie in calendar range.
    pub open spec fn valid(self) -> bool {
        1 <= self.month <= 12 && 1 <= self.day <= 31
    }
}

/// A date rendered `YYYY-MM-DD`.
pub open spec fn date_dash_seq(d: Date) -> Seq<char> {
    pad4_seq(d.year as nat) + "-"@ + pad2_seq(d.month as nat) + "-"@ + pad2_seq(d.day as nat)
}

/// A date rendered `YYYYMMDD`.
pub open spec fn date_compact_seq(d: Date) -> Seq<char> {
    pad4_seq(d.year as nat) + pad2_seq(d.month as nat) + pad2_seq(d.day as nat)
}

/// Renders a date as `YYYY-MM-DD`.
pub fn fmt_date_dash(d: &Date) -> (r: String)
    ensures
        r@ == date_dash_seq(*d),
{
    let mut r = crate::fmt::fmt_pad4(d.year);
    r.append("-");
    let month = crate::fmt::fmt_pad2(d.month);
    r.append(month.as_str());
    r.append("-");
    let day = crate::fmt::fmt_pad2(d.day);
    r.append(day.as_str());
    r
}

/// Renders a date as `YYYYMMDD`.
pub fn fmt_date_compact(d: &Date) -> (r: String)
    ensures
        r@ == date_compact_seq(*d),
{
    let mut r = crate::fmt::fmt_pad4(d.year);
    let month = crate::fmt::fmt_pad2(d.month);
    r.append(month.as_str());
    let day = crate::fmt::fmt_pad2(d.day);
    r.append(day.as_str());
    r
}

/// A local time-zone offset from UTC, as a sign and a whole number of
/// minutes.
#[derive(Clone, Copy, Debug, PartialEq, Eq, Structural)]
pub struct TzOffset {
    pub west: bool,
    pub minutes: u64,
}

impl TzOffset {
    /// The offset is less than a full day.
    pub open spec fn valid(self) -> bool {
        self.minutes < 1440
    }
}

/// An offset rendered `+HHMM` or `-HHMM`.
pub open spec fn offset_seq(o: TzOffset) -> Seq<char> {
    (if o.west {
        "-"@
    } else {
        "+"@
    }) + pad2_seq(o.minutes as nat / 60) + pad2_seq(o.minutes as nat % 60)
}

/// Renders a time-zone offset as `+HHMM` / `-HHMM`.
pub fn fmt_offset(o: &TzOffset) -> (r: String)
    requires
        o.valid(),
    ensures
        r@ == offset_seq(*o),
{
    let mut r = String::from_str(if o.west {
        "-"
    } else {
        "+"
    });
    let hours = crate::fmt::fmt_pad2(o.minutes / 60);
    r.append(hours.as_str());
    let minutes = crate::fmt::fmt_pad2(o.minutes % 60);
    r.append(minutes.as_str());
    r
}

/// One broadcast feed of a game, as listed by the content endpoint.
/// Which of the two identifiers is present depends on the league.
pub struct MediaItem {
    pub media_feed_type: Option<String>,
    pub media_playback_id: Option<String>,
    pub id: Option<u64>,
}

/// One program-guide grouping of media items under a broadcast title.
pub struct Epg {
    pub title: String,
    pub items: Option<Vec<MediaItem>>,
}

/// Per-game content: the optional EPG listing. Absent while no streams
/// are scheduled yet.
pub struct GameContent {
    pub epg: Option<Vec<Epg>>,
}

/// A thumbnail image reference from the game's media cuts.
#[derive(Clone)]
pub struct Cut {
    pub src: String,
    pub width: u64,
    pub height: u64,
}

/// One scheduled game with its kickoff shown in local time.
pub struct Game {
    pub game_pk: u64,
    /// Kickoff, converted to the machine's local clock.
    pub kick_hour: u64,
    pub kick_minute: u64,
    pub away: String,
    pub home: String,
}

impl Game {
    /// Kickoff lies on the clock.
    pub open spec fn valid(self) -> bool {
        self.kick_hour < 24 && self.kick_minute < 60
    }
}

/// A date plus the ordered games scheduled for it.
pub struct Schedule {
    pub date: Date,
    pub games: Vec<Game>,
}

/// The kickoff time rendered for menus and titles: `h:mm AM/PM`.
pub open spec fn kickoff_seq(g: Game) -> Seq<char> {
    crate::fmt::time12_seq(g.kick_hour as nat, g.kick_minute as nat)
}

} // verus!

//! XMLTV guide generation, always paired with a playlist over the same
//! entries and starting channel. The guide opens with a fixed bank of
//! one hundred channel definitions — however many streams resolved —
//! and then carries one programme record per resolved stream, numbered
//! exactly as the playlist numbers it.

use vstd::prelude::*;
use crate::fmt::dec_seq;
use crate::playlist::{
    extinf_record_seq, join, lemma_join_concat, lemma_resolved_before_step, playlist_from,
    resolved_before, resolved_from, CutPair, Entry,
};
use crate::types::{date_compact_seq, offset_seq, Cut, Date, TzOffset};

verus! {

/// The guide's opening: XML declaration, document type, and the `tv`
/// root carrying the generator's name and version.
pub open spec fn header_seq(version: Seq<char>) -> Seq<char> {
    "<?xml version=\"1.0\" encoding=\"UTF-8\"?>\n<!DOCTYPE tv SYSTEM \"xmltv.dd\">\n\n  <tv generator-info-name=\"lazystream\" source-info-name=\"lazystream - "@
        + version + "\">"@
}

/// One channel definition of the fixed bank.
pub open spec fn channel_record_seq(chan: nat, ord: nat) -> Seq<char> {
    "\n    <channel id=\""@ + dec_seq(chan)
        + "\">\n      <display-name>Lazyman "@ + dec_seq(ord)
        + "</display-name>\n      <icon src=\"http://home.windstream.net/dgrodecki/images/nhl/nhl_logo2.jpg\"></icon>\n    </channel>"@
}

/// The first `n` channel definitions, numbered from `start`.
pub open spec fn channel_bank_seq(start: nat, n: nat) -> Seq<char>
    decreases n,
{
    if n == 0 {
        Seq::empty()
    } else {
        channel_bank_seq(start, (n - 1) as nat) + channel_record_seq((start + n - 1) as nat, n)
    }
}

/// The same bank, one record per element.
pub open spec fn channel_bank_records(start: nat, n: nat) -> Seq<Seq<char>>
    decreases n,
{
    if n == 0 {
        Seq::empty()
    } else {
        channel_bank_records(start, (n - 1) as nat).push(channel_record_seq((start + n - 1) as nat, n))
    }
}

/// The channel bank of `n` entries is the concatenation of exactly `n`
/// channel records, the `i`-th defining channel `start + i`. With
/// `n == 100`, as the guide builder always passes: a guide holds
/// exactly one hundred channel elements, no matter how many of its
/// streams resolved.
pub proof fn lemma_channel_bank_structure(start: nat, n: nat)
    ensures
        channel_bank_records(start, n).len() == n,
        channel_bank_seq(start, n) == join(channel_bank_records(start, n)),
        forall|i: int|
            0 <= i < n ==> channel_bank_records(start, n)[i] == channel_record_seq(
                (start + i) as nat,
                (i + 1) as nat,
            ),
    decreases n,
{
    if n > 0 {
        lemma_channel_bank_structure(start, (n - 1) as nat);
        assert(channel_bank_records(start, n).drop_last() =~= channel_bank_records(
            start,
            (n - 1) as nat,
        ));
    }
}

/// One icon element of a programme.
pub open spec fn icon_seq(c: Cut) -> Seq<char> {
    "\n      <icon src=\""@ + c.src@ + "\" width=\""@ + dec_seq(c.width as nat) + "\" height=\""@
        + dec_seq(c.height as nat) + "\"></icon>"@
}

/// A programme's icons: the two thumbnail cuts when they were fetched,
/// a single empty-source icon otherwise.
pub open spec fn icons_seq(cuts: Option<CutPair>) -> Seq<char> {
    match cuts {
        Some(p) => icon_seq(p.small) + icon_seq(p.large),
        None => "\n      <icon src=\"\"></icon>"@,
    }
}

/// A programme's description: the fetched text, or empty.
pub open spec fn desc_seq(description: Option<String>) -> Seq<char> {
    match description {
        Some(d) => d@,
        None => Seq::empty(),
    }
}

/// A guide title: kickoff, feed type, then the teams.
pub open spec fn guide_title_seq(e: Entry) -> Seq<char> {
    crate::fmt::time12_seq(e.kick_hour as nat, e.kick_minute as nat) + " "@ + e.feed_type@ + " "@
        + e.away@ + " @ "@ + e.home@
}

/// One programme record: a start/stop window spanning the whole
/// broadcast day in the local offset, the title, the description and
/// the icons.
pub open spec fn programme_record_seq(e: Entry, chan: nat, date: Date, off: TzOffset) -> Seq<char>
    recommends
        e.link is Some,
{
    "\n    <programme channel=\""@ + dec_seq(chan) + "\" start=\""@ + date_compact_seq(date)
        + "000000 "@ + offset_seq(off) + "\" stop=\""@ + date_compact_seq(date) + "235959 "@
        + offset_seq(off) + "\">\n      <title lang=\"en\">"@ + guide_title_seq(e)
        + "</title>\n      <desc lang=\"en\">"@ + desc_seq(e.description) + "</desc>"@ + icons_seq(
        e.cuts,
    ) + "\n    </programme>"@
}

/// The programme records for the entries from index `i` on, numbered
/// as the playlist numbers them.
pub open spec fn programmes_from(
    entries: Seq<Entry>,
    start: nat,
    date: Date,
    off: TzOffset,
    i: int,
) -> Seq<char>
    decreases entries.len() - i,
{
    if i < 0 || i >= entries.len() {
        Seq::empty()
    } else {
        (if entries[i].link is Some {
            programme_record_seq(entries[i], start + resolved_before(entries, i), date, off)
        } else {
            Seq::empty()
        }) + programmes_from(entries, start, date, off, i + 1)
    }
}

/// The programme records for the entries from index `i` on, one piece
/// per resolved entry.
pub open spec fn programme_records_from(
    entries: Seq<Entry>,
    start: nat,
    date: Date,
    off: TzOffset,
    i: int,
) -> Seq<Seq<char>>
    decreases entries.len() - i,
{
    if i < 0 || i >= entries.len() {
        Seq::empty()
    } else {
        (if entries[i].link is Some {
            seq![
                programme_record_seq(entries[i], start + resolved_before(entries, i), date, off),
            ]
        } else {
            Seq::empty()
        }) + programme_records_from(entries, start, date, off, i + 1)
    }
}

/// A guide's programme section is the concatenation of exactly one
/// programme record per resolved entry.
pub proof fn lemma_programme_record_count(
    entries: Seq<Entry>,
    start: nat,
    date: Date,
    off: TzOffset,
    i: int,
)
    requires
        0 <= i <= entries.len(),
    ensures
        programmes_from(entries, start, date, off, i) == join(
            programme_records_from(entries, start, date, off, i),
        ),
        programme_records_from(entries, start, date, off, i).len() == resolved_from(entries, i),
    decreases entries.len() - i,
{
    if i < entries.len() {
        lemma_programme_record_count(entries, start, date, off, i + 1);
        let head: Seq<Seq<char>> = if entries[i].link is Some {
            seq![
                programme_record_seq(entries[i], start + resolved_before(entries, i), date, off),
            ]
        } else {
            Seq::empty()
        };
        lemma_join_concat(head, programme_records_from(entries, start, date, off, i + 1));
        if entries[i].link is Some {
            crate::playlist::lemma_join_single(
                programme_record_seq(entries[i], start + resolved_before(entries, i), date, off),
            );
        } else {
            assert(programmes_from(entries, start, date, off, i) =~= join(head) + programmes_from(
                entries,
                start,
                date,
                off,
                i + 1,
            ));
        }
    }
}

/// A guide's whole programme section is the concatenation of exactly
/// as many programme records as there are resolved entries.
pub proof fn lemma_guide_has_all_resolved(entries: Seq<Entry>, start: nat, date: Date, off: TzOffset)
    ensures
        programmes_from(entries, start, date, off, 0) == join(
            programme_records_from(entries, start, date, off, 0),
        ),
        programme_records_from(entries, start, date, off, 0).len()
            == crate::playlist::resolved_count(entries),
{
    lemma_programme_record_count(entries, start, date, off, 0);
    crate::playlist::lemma_resolved_split(entries, 0);
    assert(entries.take(0) =~= Seq::<Entry>::empty());
}

/// A whole guide: header, the bank of one hundred channels, one
/// programme per resolved entry, and the closing tag.
pub open spec fn xmltv_seq(
    entries: Seq<Entry>,
    start: nat,
    version: Seq<char>,
    date: Date,
    off: TzOffset,
) -> Seq<char> {
    header_seq(version) + channel_bank_seq(start, 100) + programmes_from(entries, start, date, off, 0)
        + "\n  </tv>"@
}

/// A playlist and a guide written over the same entries and starting
/// channel number the entry at each resolved index identically: both
/// give it channel `start` plus the count of resolved entries before
/// it, and a failed entry advances neither numbering.
pub proof fn lemma_guide_matches_playlist_numbering(
    entries: Seq<Entry>,
    start: nat,
    for_guide: bool,
    date: Date,
    off: TzOffset,
    i: int,
)
    requires
        0 <= i < entries.len(),
    ensures
        entries[i].link is Some ==> playlist_from(entries, start, for_guide, i)
            == extinf_record_seq(
            entries[i],
            start + resolved_before(entries, i),
            resolved_before(entries, i) + 1,
            for_guide,
        ) + playlist_from(entries, start, for_guide, i + 1),
        entries[i].link is Some ==> programmes_from(entries, start, date, off, i)
            == programme_record_seq(entries[i], start + resolved_before(entries, i), date, off)
            + programmes_from(entries, start, date, off, i + 1),
        entries[i].link is None ==> playlist_from(entries, start, for_guide, i) == playlist_from(
            entries,
            start,
            for_guide,
            i + 1,
        ) && programmes_from(entries, start, date, off, i) == programmes_from(
            entries,
            start,
            date,
            off,
            i + 1,
        ),
{
    if entries[i].link is None {
        assert(playlist_from(entries, start, for_guide, i) =~= playlist_from(
            entries,
            start,
            for_guide,
            i + 1,
        ));
        assert(programmes_from(entries, start, date, off, i) =~= programmes_from(
            entries,
            start,
            date,
            off,
            i + 1,
        ));
    }
}

/// Renders the guide title of an entry.
fn guide_title(e: &Entry) -> (r: String)
    requires
        e.valid(),
    ensures
        r@ == guide_title_seq(*e),
{
    let mut r = crate::fmt::fmt_time12(e.kick_hour, e.kick_minute);
    r.append(" ");
    r.append(e.feed_type.as_str());
    r.append(" ");
    r.append(e.away.as_str());
    r.append(" @ ");
    r.append(e.home.as_str());
    r
}

/// Renders one icon element.
fn icon(c: &Cut) -> (r: String)
    ensures
        r@ == icon_seq(*c),
{
    let mut r = String::from_str("\n      <icon src=\"");
    r.append(c.src.as_str());
    r.append("\" width=\"");
    let w = crate::fmt::fmt_u64(c.width);
    r.append(w.as_str());
    r.append("\" height=\"");
    let h = crate::fmt::fmt_u64(c.height);
    r.append(h.as_str());
    r.append("\"></icon>");
    proof {
        assert(r@ =~= icon_seq(*c));
    }
    r
}

/// Renders a programme's icon elements.
fn icons(cuts: &Option<CutPair>) -> (r: String)
    ensures
        r@ == icons_seq(*cuts),
{
    match cuts {
        Some(p) => {
            let mut r = icon(&p.small);
            let large = icon(&p.large);
            r.append(large.as_str());
            r
        },
        None => String::from_str("\n      <icon src=\"\"></icon>"),
    }
}

/// Renders one programme record for a resolved entry.
fn programme_record(e: &Entry, chan: u64, date: &Date, off: &TzOffset) -> (r: String)
    requires
        e.valid(),
        e.link is Some,
        off.valid(),
    ensures
        r@ == programme_record_seq(*e, chan as nat, *date, *off),
{
    let date_text = crate::types::fmt_date_compact(date);
    let off_text = crate::types::fmt_offset(off);
    let mut r = String::from_str("\n    <programme channel=\"");
    let chan_text = crate::fmt::fmt_u64(chan);
    r.append(chan_text.as_str());
    r.append("\" start=\"");
    r.append(date_text.as_str());
    r.append("000000 ");
    r.append(off_text.as_str());
    r.append("\" stop=\"");
    r.append(date_text.as_str());
    r.append("235959 ");
    r.append(off_text.as_str());
    r.append("\">\n      <title lang=\"en\">");
    let title = guide_title(e);
    r.append(title.as_str());
    r.append("</title>\n      <desc lang=\"en\">");
    if let Some(description) = &e.description {
        r.append(description.as_str());
    }
    r.append("</desc>");
    let icon_text = icons(&e.cuts);
    r.append(icon_text.as_str());
    r.append("\n    </programme>");
    proof {
        assert(r@ =~= programme_record_seq(*e, chan as nat, *date, *off));
    }
    r
}

/// Builds the whole XMLTV guide text.
pub fn build_xmltv(
    entries: &Vec<Entry>,
    start_channel: u64,
    version: &str,
    date: &Date,
    off: &TzOffset,
) -> (r: String)
    requires
        forall|i: int| 0 <= i < entries@.len() ==> entries@[i].valid(),
        off.valid(),
        start_channel + 100 <= u64::MAX,
        start_channel + entries@.len() <= u64::MAX,
    ensures
        r@ == xmltv_seq(entries@, start_channel as nat, version@, *date, *off),
{
    let ghost start: nat = start_channel as nat;
    let mut r = String::from_str(
        "<?xml version=\"1.0\" encoding=\"UTF-8\"?>\n<!DOCTYPE tv SYSTEM \"xmltv.dd\">\n\n  <tv generator-info-name=\"lazystream\" source-info-name=\"lazystream - ",
    );
    r.append(version);
    r.append("\">");
    proof {
        assert(r@ =~= header_seq(version@));
    }
    let mut id: u64 = 0;
    while id < 100
        invariant
            id <= 100,
            start == start_channel as nat,
            start_channel + 100 <= u64::MAX,
            r@ == header_seq(version@) + channel_bank_seq(start, id as nat),
        decreases 100 - id,
    {
        r.append("\n    <channel id=\"");
        let chan_text = crate::fmt::fmt_u64(start_channel + id);
        r.append(chan_text.as_str());
        r.append("\">\n      <display-name>Lazyman ");
        let ord_text = crate::fmt::fmt_u64(id + 1);
        r.append(ord_text.as_str());
        r.append(
            "</display-name>\n      <icon src=\"http://home.windstream.net/dgrodecki/images/nhl/nhl_logo2.jpg\"></icon>\n    </channel>",
        );
        id += 1;
        proof {
            assert(channel_bank_seq(start, id as nat) == channel_bank_seq(start, (id - 1) as nat)
                + channel_record_seq((start + id - 1) as nat, id as nat));
            assert(r@ =~= header_seq(version@) + channel_bank_seq(start, id as nat));
        }
    }
    let mut count: u64 = 0;
    let mut i: usize = 0;
    proof {
        assert(entries@.take(0) =~= Seq::<Entry>::empty());
    }
    while i < entries.len()
        invariant
            i <= entries@.len(),
            forall|j: int| 0 <= j < entries@.len() ==> entries@[j].valid(),
            off.valid(),
            start_channel + entries@.len() <= u64::MAX,
            start == start_channel as nat,
            count as nat == resolved_before(entries@, i as int),
            count <= i,
            header_seq(version@) + channel_bank_seq(start, 100) + programmes_from(
                entries@,
                start,
                *date,
                *off,
                0,
            ) == r@ + programmes_from(entries@, start, *date, *off, i as int),
        decreases entries@.len() - i,
    {
        let e = &entries[i];
        if e.link.is_some() {
            proof {
                lemma_resolved_before_step(entries@, i as int);
            }
            let record = programme_record(e, start_channel + count, date, off);
            r.append(record.as_str());
            count += 1;
        } else {
            proof {
                lemma_resolved_before_step(entries@, i as int);
                assert(programmes_from(entries@, start, *date, *off, i as int) =~= programmes_from(
                    entries@,
                    start,
                    *date,
                    *off,
                    i as int + 1,
                ));
            }
        }
        i += 1;
    }
    r.append("\n  </tv>");
    proof {
        assert(programmes_from(entries@, start, *date, *off, i as int) =~= Seq::<char>::empty());
        assert(r@ =~= xmltv_seq(entries@, start_channel as nat, version@, *date, *off));
    }
    r
}

} // verus!

//! M3U playlist generation over a batch of resolution outcomes. A
//! failed stream contributes nothing and leaves no gap: channel
//! numbers run contiguously from the starting channel over the
//! streams that did resolve.

use vstd::prelude::*;
use crate::fmt::dec_seq;
use crate::types::Cut;

verus! {

/// The two thumbnail cuts of a game, for guide icons.
#[derive(Clone)]
pub struct CutPair {
    pub small: Cut,
    pub large: Cut,
}

/// One stream of the day's schedule with the outcome of its
/// resolution: the playable link, or nothing if resolving it failed.
pub struct Entry {
    /// Kickoff on the local clock.
    pub kick_hour: u64,
    pub kick_minute: u64,
    pub away: String,
    pub home: String,
    pub feed_type: String,
    /// The resolved link; `None` when resolution failed.
    pub link: Option<String>,
    /// The game's free-text description, when one was fetched.
    pub description: Option<String>,
    /// The game's thumbnails, when they were fetched.
    pub cuts: Option<CutPair>,
}

impl Entry {
    /// Kickoff lies on the clock.
    pub open spec fn valid(self) -> bool {
        self.kick_hour < 24 && self.kick_minute < 60
    }
}

/// How many of the first `i` entries resolved.
pub open spec fn resolved_count(entries: Seq<Entry>) -> nat
    decreases entries.len(),
{
    if entries.len() == 0 {
        0
    } else {
        resolved_count(entries.drop_last()) + (if entries.last().link is Some {
            1nat
        } else {
            0nat
        })
    }
}

/// How many entries before index `i` resolved: the offset of entry
/// `i`'s channel number from the starting channel.
pub open spec fn resolved_before(entries: Seq<Entry>, i: int) -> nat {
    resolved_count(entries.take(i))
}

/// Stepping over one entry advances the channel offset exactly when
/// that entry resolved.
pub proof fn lemma_resolved_before_step(entries: Seq<Entry>, i: int)
    requires
        0 <= i < entries.len(),
    ensures
        resolved_before(entries, i + 1) == resolved_before(entries, i) + (
        if entries[i].link is Some {
            1nat
        } else {
            0nat
        }),
{
    assert(entries.take(i + 1).drop_last() =~= entries.take(i));
    assert(entries.take(i + 1).last() == entries[i]);
}

/// How many entries from index `i` on resolved.
pub open spec fn resolved_from(entries: Seq<Entry>, i: int) -> nat
    decreases entries.len() - i,
{
    if i < 0 || i >= entries.len() {
        0
    } else {
        (if entries[i].link is Some {
            1nat
        } else {
            0nat
        }) + resolved_from(entries, i + 1)
    }
}

/// The entries resolved before `i` and from `i` on together make up
/// all resolved entries.
pub proof fn lemma_resolved_split(entries: Seq<Entry>, i: int)
    requires
        0 <= i <= entries.len(),
    ensures
        resolved_from(entries, i) + resolved_before(entries, i) == resolved_count(entries),
    decreases entries.len() - i,
{
    if i == entries.len() {
        assert(entries.take(i) =~= entries);
    } else {
        lemma_resolved_before_step(entries, i);
        lemma_resolved_split(entries, i + 1);
    }
}

/// The concatenation of a sequence of pieces.
pub open spec fn join(pieces: Seq<Seq<char>>) -> Seq<char>
    decreases pieces.len(),
{
    if pieces.len() == 0 {
        Seq::empty()
    } else {
        join(pieces.drop_last()) + pieces.last()
    }
}

/// Joining a single piece gives that piece.
pub proof fn lemma_join_single(piece: Seq<char>)
    ensures
        join(seq![piece]) == piece,
{
    let one = seq![piece];
    assert(one.drop_last() =~= Seq::<Seq<char>>::empty());
    assert(join(one) == join(one.drop_last()) + piece);
    assert(join(one.drop_last()) + piece =~= piece);
}

/// Joining distributes over concatenation of the pieces.
pub proof fn lemma_join_concat(a: Seq<Seq<char>>, b: Seq<Seq<char>>)
    ensures
        join(a + b) == join(a) + join(b),
    decreases b.len(),
{
    if b.len() == 0 {
        assert(a + b =~= a);
        assert(join(a) + join(b) =~= join(a));
    } else {
        assert((a + b).drop_last() =~= a + b.drop_last());
        lemma_join_concat(a, b.drop_last());
        assert(join(a) + join(b.drop_last()) + b.last() =~= join(a) + join(b));
    }
}

/// A playlist title: kickoff, teams and feed type.
pub open spec fn playlist_title_seq(e: Entry) -> Seq<char> {
    crate::fmt::time12_seq(e.kick_hour as nat, e.kick_minute as nat) + " "@ + e.away@ + " @ "@
        + e.home@ + " "@ + e.feed_type@
}

/// One playlist record: the `#EXTINF` line (channel number, anonymized
/// guide name, title) and the resolved link. When the playlist is
/// paired with a guide, the title is the anonymized name too.
pub open spec fn extinf_record_seq(e: Entry, chan: nat, ord: nat, for_guide: bool) -> Seq<char>
    recommends
        e.link is Some,
{
    "#EXTINF:-1 CUID=\""@ + dec_seq(chan) + "\" tvg-id=\""@ + dec_seq(chan)
        + "\" tvg-name=\"Lazyman "@ + dec_seq(ord) + "\","@ + (if for_guide {
        "Lazyman "@ + dec_seq(ord)
    } else {
        playlist_title_seq(e)
    }) + "\n"@ + e.link.unwrap()@ + "\n"@
}

/// The records for the entries from index `i` on, with channel numbers
/// continuing from `start` plus the offset accumulated before `i`.
pub open spec fn playlist_from(entries: Seq<Entry>, start: nat, for_guide: bool, i: int) -> Seq<
    char,
>
    decreases entries.len() - i,
{
    if i < 0 || i >= entries.len() {
        Seq::empty()
    } else {
        (if entries[i].link is Some {
            extinf_record_seq(
                entries[i],
                start + resolved_before(entries, i),
                resolved_before(entries, i) + 1,
                for_guide,
            )
        } else {
            Seq::empty()
        }) + playlist_from(entries, start, for_guide, i + 1)
    }
}

/// A whole playlist: the `#EXTM3U` header, then one record per
/// resolved entry.
pub open spec fn playlist_seq(entries: Seq<Entry>, start: nat, for_guide: bool) -> Seq<char> {
    "#EXTM3U\n"@ + playlist_from(entries, start, for_guide, 0)
}

/// An entry that failed to resolve contributes no record and does not
/// advance the channel counter: the numbering of what follows closes
/// over it with no gap.
pub proof fn lemma_failed_entry_adds_nothing(
    entries: Seq<Entry>,
    start: nat,
    for_guide: bool,
    i: int,
)
    requires
        0 <= i < entries.len(),
        entries[i].link is None,
    ensures
        playlist_from(entries, start, for_guide, i) == playlist_from(
            entries,
            start,
            for_guide,
            i + 1,
        ),
        resolved_before(entries, i + 1) == resolved_before(entries, i),
{
    lemma_resolved_before_step(entries, i);
    assert(playlist_from(entries, start, for_guide, i) =~= playlist_from(
        entries,
        start,
        for_guide,
        i + 1,
    ));
}

/// An entry that resolved contributes exactly one record, numbered
/// `start` plus the count of resolved entries before it.
pub proof fn lemma_resolved_entry_record(entries: Seq<Entry>, start: nat, for_guide: bool, i: int)
    requires
        0 <= i < entries.len(),
        entries[i].link is Some,
    ensures
        playlist_from(entries, start, for_guide, i) == extinf_record_seq(
            entries[i],
            start + resolved_before(entries, i),
            resolved_before(entries, i) + 1,
            for_guide,
        ) + playlist_from(entries, start, for_guide, i + 1),
        resolved_before(entries, i + 1) == resolved_before(entries, i) + 1,
{
    lemma_resolved_before_step(entries, i);
}

/// The playlist records for the entries from index `i` on, one piece
/// per resolved entry.
pub open spec fn playlist_records_from(
    entries: Seq<Entry>,
    start: nat,
    for_guide: bool,
    i: int,
) -> Seq<Seq<char>>
    decreases entries.len() - i,
{
    if i < 0 || i >= entries.len() {
        Seq::empty()
    } else {
        (if entries[i].link is Some {
            seq![
                extinf_record_seq(
                    entries[i],
                    start + resolved_before(entries, i),
                    resolved_before(entries, i) + 1,
                    for_guide,
                ),
            ]
        } else {
            Seq::empty()
        }) + playlist_records_from(entries, start, for_guide, i + 1)
    }
}

/// A playlist's body is the concatenation of exactly one record per
/// resolved entry: a batch in which some streams failed to resolve
/// still carries every stream that did, and nothing else.
pub proof fn lemma_playlist_record_count(entries: Seq<Entry>, start: nat, for_guide: bool, i: int)
    requires
        0 <= i <= entries.len(),
    ensures
        playlist_from(entries, start, for_guide, i) == join(
            playlist_records_from(entries, start, for_guide, i),
        ),
        playlist_records_from(entries, start, for_guide, i).len() == resolved_from(entries, i),
    decreases entries.len() - i,
{
    if i < entries.len() {
        lemma_playlist_record_count(entries, start, for_guide, i + 1);
        let head: Seq<Seq<char>> = if entries[i].link is Some {
            seq![
                extinf_record_seq(
                    entries[i],
                    start + resolved_before(entries, i),
                    resolved_before(entries, i) + 1,
                    for_guide,
                ),
            ]
        } else {
            Seq::empty()
        };
        lemma_join_concat(head, playlist_records_from(entries, start, for_guide, i + 1));
        if entries[i].link is Some {
            lemma_join_single(
                extinf_record_seq(
                    entries[i],
                    start + resolved_before(entries, i),
                    resolved_before(entries, i) + 1,
                    for_guide,
                ),
            );
        } else {
            assert(playlist_from(entries, start, for_guide, i) =~= join(head) + playlist_from(
                entries,
                start,
                for_guide,
                i + 1,
            ));
        }
    }
}

/// A playlist's whole body is the concatenation of exactly as many
/// records as there are resolved entries: when one stream of a batch
/// fails to resolve, the playlist still carries every other one.
pub proof fn lemma_playlist_is_all_resolved(entries: Seq<Entry>, start: nat, for_guide: bool)
    ensures
        playlist_from(entries, start, for_guide, 0) == join(
            playlist_records_from(entries, start, for_guide, 0),
        ),
        playlist_records_from(entries, start, for_guide, 0).len() == resolved_count(entries),
{
    lemma_playlist_record_count(entries, start, for_guide, 0);
    lemma_resolved_split(entries, 0);
    assert(entries.take(0) =~= Seq::<Entry>::empty());
}

/// Renders the descriptive playlist title of an entry.
pub fn playlist_title(e: &Entry) -> (r: String)
    requires
        e.valid(),
    ensures
        r@ == playlist_title_seq(*e),
{
    let mut r = crate::fmt::fmt_time12(e.kick_hour, e.kick_minute);
    r.append(" ");
    r.append(e.away.as_str());
    r.append(" @ ");
    r.append(e.home.as_str());
    r.append(" ");
    r.append(e.feed_type.as_str());
    r
}

/// Renders one playlist record for a resolved entry.
fn extinf_record(e: &Entry, chan: u64, ord: u64, for_guide: bool) -> (r: String)
    requires
        e.valid(),
        e.link is Some,
    ensures
        r@ == extinf_record_seq(*e, chan as nat, ord as nat, for_guide),
{
    let mut r = String::from_str("#EXTINF:-1 CUID=\"");
    let chan_text = crate::fmt::fmt_u64(chan);
    r.append(chan_text.as_str());
    r.append("\" tvg-id=\"");
    r.append(chan_text.as_str());
    r.append("\" tvg-name=\"Lazyman ");
    let ord_text = crate::fmt::fmt_u64(ord);
    r.append(ord_text.as_str());
    r.append("\",");
    if for_guide {
        r.append("Lazyman ");
        r.append(ord_text.as_str());
    } else {
        let title = playlist_title(e);
        r.append(title.as_str());
    }
    r.append("\n");
    if let Some(link) = &e.link {
        r.append(link.as_str());
    }
    r.append("\n");
    proof {
        assert(r@ =~= extinf_record_seq(*e, chan as nat, ord as nat, for_guide));
    }
    r
}

/// Builds the whole M3U playlist text: header, then one record per
/// resolved entry, channel numbers contiguous from `start_channel`.
pub fn build_playlist(entries: &Vec<Entry>, for_guide: bool, start_channel: u64) -> (r: String)
    requires
        forall|i: int| 0 <= i < entries@.len() ==> entries@[i].valid(),
        start_channel + entries@.len() <= u64::MAX,
    ensures
        r@ == playlist_seq(entries@, start_channel as nat, for_guide),
{
    let ghost start: nat = start_channel as nat;
    let mut r = String::from_str("#EXTM3U\n");
    let mut count: u64 = 0;
    let mut i: usize = 0;
    proof {
        assert(entries@.take(0) =~= Seq::<Entry>::empty());
    }
    while i < entries.len()
        invariant
            i <= entries@.len(),
            forall|j: int| 0 <= j < entries@.len() ==> entries@[j].valid(),
            start_channel + entries@.len() <= u64::MAX,
            start == start_channel as nat,
            count as nat == resolved_before(entries@, i as int),
            count <= i,
            playlist_seq(entries@, start, for_guide) == r@ + playlist_from(
                entries@,
                start,
                for_guide,
                i as int,
            ),
        decreases entries@.len() - i,
    {
        let e = &entries[i];
        if e.link.is_some() {
            proof {
                lemma_resolved_entry_record(entries@, start, for_guide, i as int);
            }
            let record = extinf_record(e, start_channel + count, count + 1, for_guide);
            r.append(record.as_str());
            count += 1;
        } else {
            proof {
                lemma_failed_entry_adds_nothing(entries@, start, for_guide, i as int);
            }
        }
        i += 1;
    }
    proof {
        assert(playlist_from(entries@, start, for_guide, i as int) =~= Seq::<char>::empty());
        assert(r@ =~= r@ + Seq::<char>::empty());
    }
    r
}

} // verus!

//! Interactive selection: numbered menu lines and validation of the
//! integer the user types. Reading standard input is the caller's
//! business; the rules for accepting or re-prompting live here.

use vstd::prelude::*;
use crate::error::StreamError;
use crate::fmt::dec_seq;
use crate::types::{kickoff_seq, Game};

verus! {

/// A typed value picks an item iff it lies in `1 ..= count`.
pub open spec fn valid_choice(input: nat, count: nat) -> bool {
    1 <= input && input <= count
}

/// Accepts a one-based selection over `count` items and returns the
/// zero-based index it names; anything else is an invalid selection.
pub fn validate_choice(input: usize, count: usize) -> (r: Result<usize, StreamError>)
    ensures
        valid_choice(input as nat, count as nat) ==> r == Ok::<usize, StreamError>(
            (input - 1) as usize,
        ),
        !valid_choice(input as nat, count as nat) ==> r == Err::<usize, StreamError>(
            StreamError::InvalidSelection,
        ),
{
    if 1 <= input && input <= count {
        Ok(input - 1)
    } else {
        Err(StreamError::InvalidSelection)
    }
}

/// What a whole prompting session returns, given everything the user
/// will type in order: the zero-based index named by the first valid
/// entry, paired with how many invalid entries were re-prompted before
/// it; or nothing, if no valid entry ever comes.
pub open spec fn selection_spec(inputs: Seq<usize>, count: nat) -> Option<(usize, nat)>
    decreases inputs.len(),
{
    if inputs.len() == 0 {
        None
    } else if valid_choice(inputs[0] as nat, count) {
        Some((((inputs[0] - 1) as usize), 0))
    } else {
        match selection_spec(inputs.drop_first(), count) {
            None => None,
            Some((i, k)) => Some((i, k + 1)),
        }
    }
}

proof fn lemma_selection_spec_at(inputs: Seq<usize>, count: nat, idx: int)
    requires
        0 <= idx < inputs.len(),
        forall|j: int| 0 <= j < idx ==> !valid_choice(inputs[j] as nat, count),
        valid_choice(inputs[idx] as nat, count),
    ensures
        selection_spec(inputs, count) == Some((((inputs[idx] - 1) as usize), idx as nat)),
    decreases idx,
{
    if idx > 0 {
        lemma_selection_spec_at(inputs.drop_first(), count, idx - 1);
    }
}

proof fn lemma_selection_spec_none(inputs: Seq<usize>, count: nat)
    requires
        forall|j: int| 0 <= j < inputs.len() ==> !valid_choice(inputs[j] as nat, count),
    ensures
        selection_spec(inputs, count) is None,
    decreases inputs.len(),
{
    if inputs.len() > 0 {
        lemma_selection_spec_none(inputs.drop_first(), count);
    }
}

/// Runs a selection session over a pre-recorded sequence of typed
/// values: the first in-range value wins, everything before it counts
/// as one re-prompt each.
pub fn select_from(inputs: &Vec<usize>, count: usize) -> (r: Option<(usize, usize)>)
    ensures
        match selection_spec(inputs@, count as nat) {
            None => r is None,
            Some((i, k)) => r == Some((i, k as usize)),
        },
{
    let mut idx: usize = 0;
    while idx < inputs.len()
        invariant
            idx <= inputs.len(),
            forall|j: int| 0 <= j < idx ==> !valid_choice(inputs@[j] as nat, count as nat),
        decreases inputs.len() - idx,
    {
        let v = inputs[idx];
        if 1 <= v && v <= count {
            proof {
                lemma_selection_spec_at(inputs@, count as nat, idx as int);
            }
            return Some((v - 1, idx));
        }
        idx += 1;
    }
    proof {
        lemma_selection_spec_none(inputs@, count as nat);
    }
    None
}

/// An out-of-range entry never changes which item is finally selected:
/// it only adds one re-prompt. Repeated rejection is therefore
/// harmless, and the session is determined by the first valid entry.
pub proof fn lemma_reprompt_preserves_choice(inputs: Seq<usize>, count: nat)
    requires
        inputs.len() > 0,
        !valid_choice(inputs[0] as nat, count),
    ensures
        match selection_spec(inputs.drop_first(), count) {
            None => selection_spec(inputs, count) is None,
            Some((i, k)) => selection_spec(inputs, count) == Some((i, k + 1)),
        },
{
}

/// A game's menu line: `n) h:mm AM/PM - away @ home`.
pub open spec fn game_menu_line_seq(n: nat, g: Game) -> Seq<char> {
    dec_seq(n) + ") "@ + kickoff_seq(g) + " - "@ + g.away@ + " @ "@ + g.home@
}

/// Renders the one-based menu line for a game.
pub fn game_menu_line(n: u64, g: &Game) -> (r: String)
    requires
        g.valid(),
    ensures
        r@ == game_menu_line_seq(n as nat, *g),
{
    let mut r = crate::fmt::fmt_u64(n);
    r.append(") ");
    let kick = crate::fmt::fmt_time12(g.kick_hour, g.kick_minute);
    r.append(kick.as_str());
    r.append(" - ");
    r.append(g.away.as_str());
    r.append(" @ ");
    r.append(g.home.as_str());
    r
}

/// A feed's menu line: `n) FEEDTYPE`.
pub open spec fn feed_menu_line_seq(n: nat, feed_type: Seq<char>) -> Seq<char> {
    dec_seq(n) + ") "@ + feed_type
}

/// Renders the one-based menu line for a broadcast feed.
pub fn feed_menu_line(n: u64, feed_type: &str) -> (r: String)
    ensures
        r@ == feed_menu_line_seq(n as nat, feed_type@),
{
    let mut r = crate::fmt::fmt_u64(n);
    r.append(") ");
    r.append(feed_type);
    r
}

} // verus!

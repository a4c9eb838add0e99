//! The `!summoner` trigger: ranked standings of a player, one block per queue.
use vstd::prelude::*;
use vstd::string::*;
use crate::model::{Identity, StandingEntry, text_or, push_text_or, win_rate, win_rate_hundredths};
use crate::text::{digits, int_text, hundredths_text, push_digits, push_int, push_hundredths, strip_prefix, trim, trimmed};

verus! {

/// The text that starts a standings query.
pub open spec fn summoner_prefix() -> Seq<char> {
    "!summoner "@
}

/// One block of the standings reply.
pub open spec fn entry_text(e: StandingEntry) -> Seq<char> {
    "Rank: "@ + text_or(e.tier, "Unranked"@) + " "@ + text_or(e.division, "Unranked"@)
        + "\nLeague Points: "@ + int_text(e.league_points as int)
        + "\nWins: "@ + digits(e.wins as nat)
        + "\nLosses: "@ + digits(e.losses as nat)
        + "\nWinrate: "@ + hundredths_text(win_rate_hundredths(e.wins as nat, e.losses as nat))
        + "%\n\n"@
}

/// The blocks of all entries, in the order given.
pub open spec fn standings_text(s: Seq<StandingEntry>) -> Seq<char>
    decreases s.len(),
{
    if s.len() == 0 {
        Seq::empty()
    } else {
        standings_text(s.drop_last()) + entry_text(s.last())
    }
}

/// The reply for a player without ranked entries.
pub open spec fn no_ranked_text(identity: Identity) -> Seq<char> {
    "No ranked info found for "@ + text_or(identity.display_name, "this player"@)
}

/// The standings reply: the blocks, or the no-data message when there are none.
pub open spec fn standings_reply(identity: Identity, s: Seq<StandingEntry>) -> Seq<char> {
    if s.len() == 0 {
        no_ranked_text(identity)
    } else {
        standings_text(s)
    }
}

/// Appends the block of one entry.
fn push_entry(out: &mut String, e: &StandingEntry)
    ensures
        final(out)@ == old(out)@ + entry_text(*e),
{
    out.append("Rank: ");
    push_text_or(out, &e.tier, "Unranked");
    out.append(" ");
    push_text_or(out, &e.division, "Unranked");
    out.append("\nLeague Points: ");
    push_int(out, e.league_points as i64);
    out.append("\nWins: ");
    push_digits(out, e.wins as u128);
    out.append("\nLosses: ");
    push_digits(out, e.losses as u128);
    out.append("\nWinrate: ");
    let rate = win_rate(e.wins as u128, e.losses as u128);
    push_hundredths(out, rate);
    out.append("%\n\n");
    assert(final(out)@ =~= old(out)@ + entry_text(*e));
}

/// Renders the standings of a player: one block per entry, in order, each
/// with tier, division, points, wins, losses and win rate; or the no-data
/// message when there are no entries.
pub fn render_standings(identity: &Identity, entries: &Vec<StandingEntry>) -> (r: String)
    ensures
        r@ == standings_reply(*identity, entries@),
{
    if entries.len() == 0 {
        let mut out = String::from_str("No ranked info found for ");
        push_text_or(&mut out, &identity.display_name, "this player");
        return out;
    }
    let mut out = String::new();
    let mut i: usize = 0;
    while i < entries.len()
        invariant
            i <= entries@.len(),
            out@ == standings_text(entries@.take(i as int)),
        decreases entries@.len() - i,
    {
        push_entry(&mut out, &entries[i]);
        assert(entries@.take(i + 1).drop_last() =~= entries@.take(i as int));
        i = i + 1;
    }
    assert(entries@.take(entries@.len() as int) =~= entries@);
    out
}

/// The event handler of the standings trigger: messages that start with
/// `!summoner `.
pub struct Handler;

impl Handler {
    /// The player input of a standings trigger: the text after the prefix,
    /// trimmed; `None` when the message does not start with the prefix.
    pub fn summoner_input<'a>(&self, content: &'a str) -> (r: Option<&'a str>)
        ensures
            r is Some <==> (summoner_prefix().len() <= content@.len()
                && content@.take(summoner_prefix().len() as int) == summoner_prefix()),
            r is Some ==> r->0@ == trimmed(content@.skip(summoner_prefix().len() as int)),
    {
        match strip_prefix(content, "!summoner ") {
            Some(rest) => Some(trim(rest)),
            None => None,
        }
    }
}

} // verus!

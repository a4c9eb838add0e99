//! The `mastery` command: a player's champions by mastery, at most ten.
use vstd::prelude::*;
use vstd::string::*;
use crate::commands::region::Region;
use crate::commands::{Command, CommandKind};
use crate::model::{Identity, MasteryEntry, text_or, push_text_or};
use crate::pipeline::{Action, ActionView, Pipeline, QueryKind};
use crate::text::{digits, int_text, name_part, pad_end, pad_start, push_digits, push_int, push_padded_end, push_padded_start, tag_part, trimmed};

verus! {

/// What riven's `Champion::name` returns for the champion with id `id`.
pub uninterp spec fn champion_name_of(id: i32) -> Option<Seq<char>>;

/// Relies on riven's `Champion::name`: the English name of the champion
/// with this numeric id, `None` for an id that riven does not know.
#[verifier::external_body]
fn champion_name(id: i32) -> (r: Option<&'static str>)
    ensures
        match r {
            Some(s) => champion_name_of(id) == Some(s@),
            None => champion_name_of(id) is None,
        },
{
    riven::consts::Champion(id).name()
}

/// At most this many entries are shown.
pub open spec fn max_shown() -> nat {
    10
}

/// How many of `len` entries are shown.
pub open spec fn shown_count(len: nat) -> nat {
    if len < max_shown() {
        len
    } else {
        max_shown()
    }
}

/// A resolved champion name, or `UNKNOWN`.
pub open spec fn champion_label(name: Option<Seq<char>>) -> Seq<char> {
    match name {
        Some(s) => s,
        None => "UNKNOWN"@,
    }
}

/// The line of the entry ranked `rank` (from 1): rank, champion, points and level.
pub open spec fn mastery_line(rank: nat, name: Option<Seq<char>>, e: MasteryEntry) -> Seq<char> {
    pad_start(digits(rank), 2) + ") "@ + pad_end(champion_label(name), 9) + "    "@
        + pad_start(int_text(e.champion_points as int), 7) + " ("@
        + int_text(e.champion_level as int) + ")\n"@
}

/// The lines of the first `n` entries, ranked from 1, the i-th with `names[i]`.
pub open spec fn mastery_lines(
    entries: Seq<MasteryEntry>,
    names: Seq<Option<Seq<char>>>,
    n: nat,
) -> Seq<char>
    decreases n,
{
    if n == 0 {
        Seq::empty()
    } else {
        mastery_lines(entries, names, (n - 1) as nat) + mastery_line(
            n,
            names[n - 1],
            entries[n - 1],
        )
    }
}

/// The mastery reply for `identity`, with `names[i]` as the champion of
/// `entries[i]`.
pub open spec fn mastery_text(
    identity: Identity,
    entries: Seq<MasteryEntry>,
    names: Seq<Option<Seq<char>>>,
) -> Seq<char> {
    "\n"@ + text_or(identity.display_name, ""@) + "#"@ + text_or(identity.tag, ""@)
        + " Champion Masteries:\n```"@ + (if entries.len() == 0 {
        "No champion masteries found.\n"@
    } else {
        mastery_lines(entries, names, shown_count(entries.len()))
    }) + "```\n"@
}

/// The names that riven gives the champions of the shown entries.
pub open spec fn champion_names(entries: Seq<MasteryEntry>) -> Seq<Option<Seq<char>>> {
    Seq::new(shown_count(entries.len()), |i: int| champion_name_of(entries[i].champion_id))
}

/// The text of an optional name.
pub open spec fn opt_view(o: Option<&str>) -> Option<Seq<char>> {
    match o {
        Some(s) => Some(s@),
        None => None,
    }
}

/// The texts of a list of optional names.
pub open spec fn names_view(v: Seq<Option<&str>>) -> Seq<Option<Seq<char>>> {
    Seq::new(v.len(), |i: int| opt_view(v[i]))
}

/// Appends the line of the entry ranked `rank`.
fn push_mastery_line(out: &mut String, rank: usize, name: Option<&str>, e: &MasteryEntry)
    ensures
        final(out)@ == old(out)@ + mastery_line(
            rank as nat,
            opt_view(name),
            *e,
        ),
{
    let mut number = String::new();
    push_digits(&mut number, rank as u128);
    push_padded_start(out, number.as_str(), 2);
    out.append(") ");
    match name {
        Some(s) => push_padded_end(out, s, 9),
        None => push_padded_end(out, "UNKNOWN", 9),
    }
    out.append("    ");
    let mut points = String::new();
    push_int(&mut points, e.champion_points as i64);
    push_padded_start(out, points.as_str(), 7);
    out.append(" (");
    push_int(out, e.champion_level as i64);
    out.append(")\n");
    assert(number@ =~= digits(rank as nat));
    assert(points@ =~= int_text(e.champion_points as int));
    assert(final(out)@ =~= old(out)@ + mastery_line(
        rank as nat,
        opt_view(name),
        *e,
    ));
}

/// Renders the mastery reply with `names[i]` as the champion name of
/// `entries[i]`: a header with the player's name and tag, then the first ten
/// entries in the order given, numbered from 1, or a line saying there are
/// none.
pub fn render_masteries_named(
    identity: &Identity,
    entries: &Vec<MasteryEntry>,
    names: &Vec<Option<&str>>,
) -> (r: String)
    requires
        names@.len() >= shown_count(entries@.len()),
    ensures
        r@ == mastery_text(*identity, entries@, names_view(names@)),
{
    let mut out = String::from_str("\n");
    push_text_or(&mut out, &identity.display_name, "");
    out.append("#");
    push_text_or(&mut out, &identity.tag, "");
    out.append(" Champion Masteries:\n```");
    let ghost head = out@;
    if entries.len() == 0 {
        out.append("No champion masteries found.\n");
    } else {
        let shown: usize = if entries.len() < 10 { entries.len() } else { 10 };
        let mut i: usize = 0;
        while i < shown
            invariant
                shown == shown_count(entries@.len()),
                shown <= entries@.len(),
                shown <= names@.len(),
                i <= shown,
                out@ == head + mastery_lines(entries@, names_view(names@), i as nat),
            decreases shown - i,
        {
            push_mastery_line(&mut out, i + 1, names[i], &entries[i]);
            assert(mastery_lines(entries@, names_view(names@), (i + 1) as nat)
                =~= mastery_lines(entries@, names_view(names@), i as nat) + mastery_line(
                (i + 1) as nat,
                names_view(names@)[i as int],
                entries@[i as int],
            ));
            i = i + 1;
        }
    }
    out.append("```\n");
    assert(out@ =~= mastery_text(*identity, entries@, names_view(names@)));
    out
}

/// Renders the mastery reply, with each shown champion named as riven names it.
pub fn render_masteries(identity: &Identity, entries: &Vec<MasteryEntry>) -> (r: String)
    ensures
        r@ == mastery_text(*identity, entries@, champion_names(entries@)),
{
    let shown: usize = if entries.len() < 10 { entries.len() } else { 10 };
    let mut names: Vec<Option<&str>> = Vec::new();
    let mut i: usize = 0;
    while i < shown
        invariant
            shown == shown_count(entries@.len()),
            shown <= entries@.len(),
            i <= shown,
            names@.len() == i,
            forall|k: int|
                0 <= k < i ==> opt_view(#[trigger] names@[k]) == champion_name_of(
                    entries@[k].champion_id,
                ),
        decreases shown - i,
    {
        let name = champion_name(entries[i].champion_id);
        let ghost before = names@;
        names.push(name);
        assert(forall|k: int| 0 <= k < i ==> names@[k] == before[k]);
        i = i + 1;
    }
    assert(names_view(names@) =~= champion_names(entries@));
    render_masteries_named(identity, entries, &names)
}

proof fn lemma_lines_use_prefix(
    a: Seq<MasteryEntry>,
    b: Seq<MasteryEntry>,
    names: Seq<Option<Seq<char>>>,
    n: nat,
)
    requires
        n <= a.len(),
        n <= b.len(),
        a.take(n as int) == b.take(n as int),
    ensures
        mastery_lines(a, names, n) == mastery_lines(b, names, n),
    decreases n,
{
    if n > 0 {
        assert(a.take(n - 1) =~= a.take(n as int).take(n - 1));
        assert(b.take(n - 1) =~= b.take(n as int).take(n - 1));
        assert(a[n - 1] == a.take(n as int)[n - 1]);
        assert(b[n - 1] == b.take(n as int)[n - 1]);
        lemma_lines_use_prefix(a, b, names, (n - 1) as nat);
    }
}

/// Only the first ten entries show: two lists of at least ten entries that
/// agree on their first ten give the same reply, whatever follows.
pub proof fn lemma_only_first_ten_shown(
    identity: Identity,
    a: Seq<MasteryEntry>,
    b: Seq<MasteryEntry>,
    names: Seq<Option<Seq<char>>>,
)
    requires
        a.len() >= max_shown(),
        b.len() >= max_shown(),
        a.take(max_shown() as int) == b.take(max_shown() as int),
    ensures
        mastery_text(identity, a, names) == mastery_text(identity, b, names),
{
    lemma_lines_use_prefix(a, b, names, max_shown());
}

/// Starts mastery queries.
pub struct MasteryCommand;

impl MasteryCommand {
    pub fn new() -> (r: MasteryCommand) {
        MasteryCommand
    }

    /// Starts a mastery query for `input` (`name#tag`) in `region`.
    pub fn start(&self, region: Region, input: &str) -> (r: (Pipeline, Action))
        ensures
            r.0.kind == QueryKind::Mastery,
            r.0.region == region,
            r.0.stage is AwaitIdentity,
            r.1@ == (ActionView::LookupIdentity {
                region,
                game_name: name_part(trimmed(input@)),
                tag_line: tag_part(trimmed(input@)),
            }),
    {
        Pipeline::start(QueryKind::Mastery, region, input)
    }
}

impl Command for MasteryCommand {
    open spec fn spec_name(&self) -> Seq<char> {
        CommandKind::Mastery.spec_name()
    }

    open spec fn spec_description(&self) -> Seq<char> {
        CommandKind::Mastery.spec_description()
    }

    fn name(&self) -> (r: &'static str) {
        CommandKind::Mastery.name()
    }

    fn description(&self) -> (r: &'static str) {
        CommandKind::Mastery.description()
    }
}

} // verus!

use crate::host::download::{chunk, chunk_count, chunk_piece};
use crate::region::{region_name, Region};
use crate::text::{nat_decimal, push_decimal};
use vstd::prelude::*;
use vstd::string::*;

verus! {

/// The kinds of entry the bot writes to a region's log channel.
#[derive(Debug, Clone, Copy, PartialEq, Eq, Structural)]
pub enum LogType {
    Info,
    Disqualify,
    DisqualifyInactives,
    Test,
}

/// What a host fills in to disqualify a player: the player's Discord id and a reason.
pub struct Form {
    pub user_id: String,
    pub reason: String,
}

/// The reason logged when the host gave none.
pub open spec fn default_disqualify() -> Seq<char> {
    "Player has been disqualified from the tournament."@
}

/// The reason as it is logged: the one given, or the default in place of an empty one.
pub open spec fn filled_reason(reason: Seq<char>) -> Seq<char> {
    if reason.len() == 0 {
        default_disqualify()
    } else {
        reason
    }
}

/// A law of the form: filling in the reason a second time changes nothing.
pub proof fn lemma_fill_reason_idempotent(reason: Seq<char>)
    ensures
        filled_reason(filled_reason(reason)) == filled_reason(reason),
{
    reveal_strlit("Player has been disqualified from the tournament.");
}

impl Form {
    /// A form with the given id and reason.
    pub fn new(user_id: String, reason: String) -> (r: Form)
        ensures
            r.user_id == user_id,
            r.reason == reason,
    {
        Form { user_id, reason }
    }

    /// Puts the default reason in place of an empty one; a reason given stays.
    pub fn fill_reason(&mut self)
        ensures
            final(self).user_id == old(self).user_id,
            final(self).reason@ == filled_reason(old(self).reason@),
    {
        if self.reason.unicode_len() == 0 {
            self.reason = String::from_str("Player has been disqualified from the tournament.");
        }
    }
}

/// The text of a disqualification entry in the log.
pub open spec fn disqualify_text(user_id: Seq<char>, region: Region, round: Seq<char>, reason: Seq<char>, host_id: nat) -> Seq<char> {
    "\n<@"@ + user_id + ">(`"@ + user_id + "`) has been disqualified from the tournament region "@
        + region_name(region) + " at "@ + round + ".\n**Reason**: "@ + reason
        + "\n**Disqualified by**: <@"@ + nat_decimal(host_id) + ">(`"@ + nat_decimal(host_id)
        + "`).        \n          "@
}

/// Fills in the form's reason (see `Form::fill_reason`) and writes the log entry for
/// the disqualification of the form's player in `region` at `round` by host `host_id`.
pub fn disqualify_description(form: &mut Form, region: Region, round: &str, host_id: u64) -> (r: String)
    ensures
        final(form).user_id == old(form).user_id,
        final(form).reason@ == filled_reason(old(form).reason@),
        r@ == disqualify_text(final(form).user_id@, region, round@, final(form).reason@, host_id as nat),
{
    form.fill_reason();
    let mut s = String::from_str("\n<@");
    s.append(form.user_id.as_str());
    s.append(">(`");
    s.append(form.user_id.as_str());
    s.append("`) has been disqualified from the tournament region ");
    let name = region.full();
    s.append(name.as_str());
    s.append(" at ");
    s.append(round);
    s.append(".\n**Reason**: ");
    s.append(form.reason.as_str());
    s.append("\n**Disqualified by**: <@");
    push_decimal(&mut s, host_id);
    s.append(">(`");
    push_decimal(&mut s, host_id);
    s.append("`).        \n          ");
    assert(s@ =~= disqualify_text(form.user_id@, region, round@, form.reason@, host_id as nat));
    s
}

/// The names joined with `, ` between them.
pub open spec fn joined(names: Seq<Seq<char>>) -> Seq<char>
    decreases names.len(),
{
    if names.len() == 0 {
        Seq::empty()
    } else if names.len() == 1 {
        names[0]
    } else {
        joined(names.drop_last()) + ", "@ + names.last()
    }
}

/// Joins the names with `, ` between them.
pub fn join_names(names: &[String]) -> (r: String)
    ensures
        r@ == joined(names@.map_values(|n: String| n@)),
{
    let mut s = String::new();
    let mut i: usize = 0;
    while i < names.len()
        invariant
            i <= names@.len(),
            s@ == joined(names@.take(i as int).map_values(|n: String| n@)),
        decreases names@.len() - i,
    {
        let ghost prev = names@.take(i as int).map_values(|n: String| n@);
        let ghost next = names@.take(i + 1).map_values(|n: String| n@);
        assert(next.drop_last() =~= prev);
        if i > 0 {
            s.append(", ");
        }
        s.append(names[i].as_str());
        i = i + 1;
        proof {
            if i == 1 {
                assert(next =~= seq![names@[0]@]);
            }
        }
    }
    assert(names@.take(i as int) =~= names@);
    s
}

/// The heading of the log entry for players disqualified for inactivity.
pub open spec fn inactive_heading(region: Region, host_id: nat) -> Seq<char> {
    "Due to inactivity, the following players have been disqualified from the tournament region "@
        + region_name(region) + ". Disqualifed by <@"@ + nat_decimal(host_id) + ">(`"@
        + nat_decimal(host_id) + "`)"@
}

/// The texts of the log entry for players disqualified for inactivity: the heading,
/// then the players fifty at a time, joined with `, `.
pub fn inactive_descriptions(region: Region, host_id: u64, players: &Vec<String>) -> (r: Vec<String>)
    ensures
        r@.len() == 1 + chunk_count(players@.len(), 50),
        r@[0]@ == inactive_heading(region, host_id as nat),
        forall|i: int|
            0 <= i < r@.len() - 1 ==> (#[trigger] r@[i + 1])@ == joined(
                chunk_piece(players@, 50, i as nat).map_values(|n: String| n@),
            ),
{
    let mut head = String::from_str(
        "Due to inactivity, the following players have been disqualified from the tournament region ",
    );
    let name = region.full();
    head.append(name.as_str());
    head.append(". Disqualifed by <@");
    push_decimal(&mut head, host_id);
    head.append(">(`");
    push_decimal(&mut head, host_id);
    head.append("`)");
    assert(head@ =~= inactive_heading(region, host_id as nat));
    let pieces = chunk(players.as_slice(), 50);
    let mut r: Vec<String> = Vec::new();
    r.push(head);
    let mut i: usize = 0;
    while i < pieces.len()
        invariant
            i <= pieces@.len(),
            pieces@.len() == chunk_count(players@.len(), 50),
            forall|k: int|
                0 <= k < pieces@.len() ==> (#[trigger] pieces@[k])@ == chunk_piece(
                    players@,
                    50,
                    k as nat,
                ),
            r@.len() == 1 + i,
            r@[0]@ == inactive_heading(region, host_id as nat),
            forall|k: int|
                0 <= k < i ==> (#[trigger] r@[k + 1])@ == joined(
                    chunk_piece(players@, 50, k as nat).map_values(|n: String| n@),
                ),
        decreases pieces@.len() - i,
    {
        let line = join_names(pieces[i]);
        r.push(line);
        i = i + 1;
    }
    r
}

} // verus!

use crate::text::{starts_with, starts_with_text};
use vstd::prelude::*;
use vstd::string::*;

verus! {

/// The steps of a tournament reset, in order.
#[derive(Debug, Clone, Copy, PartialEq, Eq, Structural)]
pub enum ResetStage {
    /// About to start.
    Starting,
    /// Dropping the rounds and resetting the configuration.
    ClearingRounds,
    /// Taking the regional role from the players.
    RemovingRoles,
    /// Deleting the registrations.
    ClearingPlayers,
    /// All done.
    Done,
}

/// The progress lines of a reset.
pub open spec fn line(k: int) -> Seq<char> {
    if k == 0 {
        "<:info:1187845402163167363> Getting ready to reset the tournament..."@
    } else if k == 1 {
        "<a:loading:1187839622680690689> Clearing all rounds and resetting the config to default..."@
    } else if k == 2 {
        "<:tick:1187839626338111600> Complete! All rounds are purged and the config is at default!"@
    } else if k == 3 {
        "<a:loading:1187839622680690689> Removing regional roles from players..."@
    } else if k == 4 {
        "<:tick:1187839626338111600> Complete! All regional roles are removed!"@
    } else if k == 5 {
        "<a:loading:1187839622680690689> Clearing all players registration..."@
    } else {
        "<:tick:1187839626338111600> Complete! Registration is empty!"@
    }
}

/// The lines shown at a stage: what is done so far, then what is under way.
pub open spec fn stage_lines(stage: ResetStage) -> Seq<int> {
    match stage {
        ResetStage::Starting => seq![0],
        ResetStage::ClearingRounds => seq![0, 1],
        ResetStage::RemovingRoles => seq![0, 2, 3],
        ResetStage::ClearingPlayers => seq![0, 2, 4, 5],
        ResetStage::Done => seq![0, 2, 4, 6],
    }
}

/// The text of the lines `ks`, each on a line of its own, after a line break.
pub open spec fn lines_text(ks: Seq<int>) -> Seq<char>
    decreases ks.len(),
{
    if ks.len() == 0 {
        "\n"@
    } else {
        lines_text(ks.drop_last()) + line(ks.last()) + "\n"@
    }
}

fn line_of(k: usize) -> (r: &'static str)
    ensures
        r@ == line(k as int),
{
    if k == 0 {
        "<:info:1187845402163167363> Getting ready to reset the tournament..."
    } else if k == 1 {
        "<a:loading:1187839622680690689> Clearing all rounds and resetting the config to default..."
    } else if k == 2 {
        "<:tick:1187839626338111600> Complete! All rounds are purged and the config is at default!"
    } else if k == 3 {
        "<a:loading:1187839622680690689> Removing regional roles from players..."
    } else if k == 4 {
        "<:tick:1187839626338111600> Complete! All regional roles are removed!"
    } else if k == 5 {
        "<a:loading:1187839622680690689> Clearing all players registration..."
    } else {
        "<:tick:1187839626338111600> Complete! Registration is empty!"
    }
}

/// The progress text shown at a stage of the reset (see `stage_lines`).
pub fn reset_text(stage: ResetStage) -> (r: String)
    ensures
        r@ == lines_text(stage_lines(stage)),
{
    let ks: Vec<usize> = match stage {
        ResetStage::Starting => vec![0],
        ResetStage::ClearingRounds => vec![0, 1],
        ResetStage::RemovingRoles => vec![0, 2, 3],
        ResetStage::ClearingPlayers => vec![0, 2, 4, 5],
        ResetStage::Done => vec![0, 2, 4, 6],
    };
    let ghost target = stage_lines(stage);
    assert(ks@.len() == target.len() && forall|j: int| 0 <= j < ks@.len() ==> ks@[j] as int == target[j]);
    let mut s = String::from_str("\n");
    proof {
        reveal_strlit("\n");
    }
    let mut i: usize = 0;
    while i < ks.len()
        invariant
            i <= ks@.len(),
            ks@.len() == target.len(),
            forall|j: int| 0 <= j < ks@.len() ==> ks@[j] as int == target[j],
            s@ == lines_text(target.take(i as int)),
        decreases ks@.len() - i,
    {
        assert(target.take(i + 1).drop_last() =~= target.take(i as int));
        s.append(line_of(ks[i]));
        s.append("\n");
        i = i + 1;
    }
    assert(target.take(i as int) =~= target);
    s
}

/// What a reset does with a collection of the region's database.
#[derive(Debug, Clone, Copy, PartialEq, Eq, Structural)]
pub enum CollectionAction {
    /// A round: dropped.
    Drop,
    /// The configuration: set back to the defaults.
    ResetConfig,
    /// Anything else: left alone.
    Keep,
}

/// The action on the collection `name`: rounds (`Round…`) are dropped and the
/// configuration (`Config…`) is reset.
pub open spec fn collection_action_of(name: Seq<char>) -> CollectionAction {
    if starts_with(name, "Round"@) {
        CollectionAction::Drop
    } else if starts_with(name, "Config"@) {
        CollectionAction::ResetConfig
    } else {
        CollectionAction::Keep
    }
}

/// Decides what a reset does with a collection (see `collection_action_of`).
pub fn collection_action(name: &str) -> (r: CollectionAction)
    ensures
        r == collection_action_of(name@),
{
    if starts_with_text(name, "Round") {
        CollectionAction::Drop
    } else if starts_with_text(name, "Config") {
        CollectionAction::ResetConfig
    } else {
        CollectionAction::Keep
    }
}

/// A law of resetting: every collection whose name begins with `Round` (each round's
/// collection, whatever its number) is dropped, and every one whose name begins with
/// `Config` is set back to the defaults.
pub proof fn lemma_reset_drops_every_round(rest: Seq<char>)
    ensures
        collection_action_of("Round"@ + rest) == CollectionAction::Drop,
        collection_action_of("Config"@ + rest) == CollectionAction::ResetConfig,
{
    reveal_strlit("Round");
    reveal_strlit("Config");
    assert(("Round"@ + rest).subrange(0, 5) =~= "Round"@);
    assert(("Config"@ + rest).subrange(0, 6) =~= "Config"@);
    assert(("Config"@ + rest)[0] != "Round"@[0]);
}

/// A law of resetting: a collection is dropped only when its name begins with `Round`,
/// and one whose name begins with neither `Round` nor `Config` is left alone.
pub proof fn lemma_reset_keeps_the_rest(name: Seq<char>)
    ensures
        collection_action_of(name) == CollectionAction::Drop ==> exists|rest: Seq<char>|
            name == "Round"@ + rest,
        (!(exists|rest: Seq<char>| name == "Round"@ + rest) && !(exists|rest: Seq<char>|
            name == "Config"@ + rest)) ==> collection_action_of(name) == CollectionAction::Keep,
{
    reveal_strlit("Round");
    reveal_strlit("Config");
    if name.len() >= 5 && name.subrange(0, 5) == "Round"@ {
        assert(name =~= "Round"@ + name.subrange(5, name.len() as int));
    }
    if name.len() >= 6 && name.subrange(0, 6) == "Config"@ {
        assert(name =~= "Config"@ + name.subrange(6, name.len() as int));
    }
}

} // verus!

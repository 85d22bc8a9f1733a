use crate::region::{region_name, Region};
use crate::text::{int_decimal, nat_decimal, push_decimal, push_signed_decimal};
use vstd::prelude::*;
use vstd::string::*;
use vstd::seq_lib::lemma_concat_associative;

verus! {

/// The counts of a region's tournament shown by the statistics view.
#[derive(Debug, Clone, Copy, PartialEq, Eq, Structural)]
pub struct Counts {
    pub players: u64,
    pub rounds: u64,
    pub current_round: i32,
    pub matches: u64,
    pub current_players: u64,
    pub byes: u64,
    pub advanced: u64,
    pub eliminated: u64,
    pub played: u64,
    pub unplayed: u64,
    pub inactive: u64,
}

/// The statistics report of a region.
pub open spec fn report_text(region: Region, c: Counts) -> Seq<char> {
    "**Region: "@
        + region_name(region) + " insight.**\n# Overall statistics:\n**👥 Players**: "@
        + nat_decimal(c.players as nat) + "\n**⚽ Rounds**: "@
        + nat_decimal(c.rounds as nat) + "\n# Round "@
        + int_decimal(c.current_round as int) + " statistics:\n**⚔️ Matches**: "@
        + nat_decimal(c.matches as nat) + "\n**👥 Players:**: "@
        + nat_decimal(c.current_players as nat) + "\n**👋 Byes:**: "@
        + nat_decimal(c.byes as nat) + " (Note: disqualifed player will be replaced by bye)\n**🏆 Advanced to next round**: "@
        + nat_decimal(c.advanced as nat) + "\n**❌ Eliminated**: "@
        + nat_decimal(c.eliminated as nat) + "\n**🚩 Matches taken place**: "@
        + nat_decimal(c.played as nat) + "\n**🏁 Matches not yet happened**: "@
        + nat_decimal(c.unplayed as nat) + "\n**💀 Inactive players**: "@
        + nat_decimal(c.inactive as nat) + "\n"@
}

/// Writes the statistics report of a region (see `report_text`).
pub fn statistics_report(region: Region, c: Counts) -> (r: String)
    ensures
        r@ == report_text(region, c),
{
    let mut s = String::from_str("**Region: ");
    let name = region.full();
    s.append(name.as_str());
    s.append(" insight.**\n# Overall statistics:\n**👥 Players**: ");
    push_decimal(&mut s, c.players);
    s.append("\n**⚽ Rounds**: ");
    push_decimal(&mut s, c.rounds);
    s.append("\n# Round ");
    push_signed_decimal(&mut s, c.current_round as i64);
    s.append(" statistics:\n**⚔️ Matches**: ");
    push_decimal(&mut s, c.matches);
    s.append("\n**👥 Players:**: ");
    push_decimal(&mut s, c.current_players);
    s.append("\n**👋 Byes:**: ");
    push_decimal(&mut s, c.byes);
    s.append(" (Note: disqualifed player will be replaced by bye)\n**🏆 Advanced to next round**: ");
    push_decimal(&mut s, c.advanced);
    s.append("\n**❌ Eliminated**: ");
    push_decimal(&mut s, c.eliminated);
    s.append("\n**🚩 Matches taken place**: ");
    push_decimal(&mut s, c.played);
    s.append("\n**🏁 Matches not yet happened**: ");
    push_decimal(&mut s, c.unplayed);
    s.append("\n**💀 Inactive players**: ");
    push_decimal(&mut s, c.inactive);
    s.append("\n");
    assert(s@ =~= report_text(region, c));
    s
}

/// A law of the statistics report: the number after "Advanced to next round" is the
/// count of players who advanced, and the number after "Eliminated" on the next line is
/// the count of players eliminated.
pub proof fn lemma_report_shows_advanced_then_eliminated(region: Region, c: Counts)
    ensures
        exists|pre: Seq<char>, post: Seq<char>|
            report_text(region, c) == pre + "\n**🏆 Advanced to next round**: "@ + nat_decimal(
                c.advanced as nat,
            ) + "\n**❌ Eliminated**: "@ + nat_decimal(c.eliminated as nat) + "\n**🚩"@ + post,
{
    let pre = "**Region: "@
        + region_name(region) + " insight.**\n# Overall statistics:\n**👥 Players**: "@
        + nat_decimal(c.players as nat) + "\n**⚽ Rounds**: "@
        + nat_decimal(c.rounds as nat) + "\n# Round "@
        + int_decimal(c.current_round as int) + " statistics:\n**⚔️ Matches**: "@
        + nat_decimal(c.matches as nat) + "\n**👥 Players:**: "@
        + nat_decimal(c.current_players as nat) + "\n**👋 Byes:**: "@
        + nat_decimal(c.byes as nat) + " (Note: disqualifed player will be replaced by bye)"@;
    let post = " Matches taken place**: "@
        + nat_decimal(c.played as nat) + "\n**🏁 Matches not yet happened**: "@
        + nat_decimal(c.unplayed as nat) + "\n**💀 Inactive players**: "@
        + nat_decimal(c.inactive as nat) + "\n"@;
    reveal_strlit(" (Note: disqualifed player will be replaced by bye)\n**🏆 Advanced to next round**: ");
    reveal_strlit(" (Note: disqualifed player will be replaced by bye)");
    reveal_strlit("\n**🏆 Advanced to next round**: ");
    reveal_strlit("\n**❌ Eliminated**: ");
    reveal_strlit("\n**🚩 Matches taken place**: ");
    reveal_strlit("\n**🚩");
    reveal_strlit(" Matches taken place**: ");
    assert(" (Note: disqualifed player will be replaced by bye)\n**🏆 Advanced to next round**: "@
        =~= " (Note: disqualifed player will be replaced by bye)"@ + "\n**🏆 Advanced to next round**: "@);
    assert("\n**🚩 Matches taken place**: "@ =~= "\n**🚩"@ + " Matches taken place**: "@);
    assert(report_text(region, c) =~= pre + "\n**🏆 Advanced to next round**: "@ + nat_decimal(
        c.advanced as nat,
    ) + "\n**❌ Eliminated**: "@ + nat_decimal(c.eliminated as nat) + "\n**🚩"@ + post);
}

/// A law of the statistics report: each figure stands between its own label and the
/// next one: the region's name, then the players, the rounds, the current round, its
/// matches, its players, its byes, those advanced, those eliminated, the matches played,
/// the matches not played and the inactive players, each as the decimal of its own count.
pub proof fn lemma_report_labels_each_count(region: Region, c: Counts)
    ensures
        exists|post: Seq<char>| #[trigger] report_text(region, c) == "**Region: "@ + region_name(region) + " insight.**\n# Overall statistics:\n**👥 Players**: "@ + post,
        exists|pre: Seq<char>, post: Seq<char>|
            #[trigger] report_text(region, c) == pre + " insight.**\n# Overall statistics:\n**👥 Players**: "@ + nat_decimal(c.players as nat) + "\n**⚽ Rounds**: "@ + post,
        exists|pre: Seq<char>, post: Seq<char>|
            #[trigger] report_text(region, c) == pre + "\n**⚽ Rounds**: "@ + nat_decimal(c.rounds as nat) + "\n# Round "@ + post,
        exists|pre: Seq<char>, post: Seq<char>|
            #[trigger] report_text(region, c) == pre + "\n# Round "@ + int_decimal(c.current_round as int) + " statistics:\n**⚔️ Matches**: "@ + post,
        exists|pre: Seq<char>, post: Seq<char>|
            #[trigger] report_text(region, c) == pre + " statistics:\n**⚔️ Matches**: "@ + nat_decimal(c.matches as nat) + "\n**👥 Players:**: "@ + post,
        exists|pre: Seq<char>, post: Seq<char>|
            #[trigger] report_text(region, c) == pre + "\n**👥 Players:**: "@ + nat_decimal(c.current_players as nat) + "\n**👋 Byes:**: "@ + post,
        exists|pre: Seq<char>, post: Seq<char>|
            #[trigger] report_text(region, c) == pre + "\n**👋 Byes:**: "@ + nat_decimal(c.byes as nat) + " (Note: disqualifed player will be replaced by bye)\n**🏆 Advanced to next round**: "@ + post,
        exists|pre: Seq<char>, post: Seq<char>|
            #[trigger] report_text(region, c) == pre + " (Note: disqualifed player will be replaced by bye)\n**🏆 Advanced to next round**: "@ + nat_decimal(c.advanced as nat) + "\n**❌ Eliminated**: "@ + post,
        exists|pre: Seq<char>, post: Seq<char>|
            #[trigger] report_text(region, c) == pre + "\n**❌ Eliminated**: "@ + nat_decimal(c.eliminated as nat) + "\n**🚩 Matches taken place**: "@ + post,
        exists|pre: Seq<char>, post: Seq<char>|
            #[trigger] report_text(region, c) == pre + "\n**🚩 Matches taken place**: "@ + nat_decimal(c.played as nat) + "\n**🏁 Matches not yet happened**: "@ + post,
        exists|pre: Seq<char>, post: Seq<char>|
            #[trigger] report_text(region, c) == pre + "\n**🏁 Matches not yet happened**: "@ + nat_decimal(c.unplayed as nat) + "\n**💀 Inactive players**: "@ + post,
        exists|pre: Seq<char>| #[trigger] report_text(region, c) == pre + "\n**💀 Inactive players**: "@ + nat_decimal(c.inactive as nat) + "\n"@,
{
    assert(report_text(region, c) == ("**Region: "@ + region_name(region) + " insight.**\n# Overall statistics:\n**👥 Players**: "@) + (nat_decimal(c.players as nat) + "\n**⚽ Rounds**: "@ + nat_decimal(c.rounds as nat) + "\n# Round "@ + int_decimal(c.current_round as int) + " statistics:\n**⚔️ Matches**: "@ + nat_decimal(c.matches as nat) + "\n**👥 Players:**: "@ + nat_decimal(c.current_players as nat) + "\n**👋 Byes:**: "@ + nat_decimal(c.byes as nat) + " (Note: disqualifed player will be replaced by bye)\n**🏆 Advanced to next round**: "@ + nat_decimal(c.advanced as nat) + "\n**❌ Eliminated**: "@ + nat_decimal(c.eliminated as nat) + "\n**🚩 Matches taken place**: "@ + nat_decimal(c.played as nat) + "\n**🏁 Matches not yet happened**: "@ + nat_decimal(c.unplayed as nat) + "\n**💀 Inactive players**: "@ + nat_decimal(c.inactive as nat) + "\n"@)) by {
        lemma_concat_associative(("**Region: "@ + region_name(region) + " insight.**\n# Overall statistics:\n**👥 Players**: "@), (nat_decimal(c.players as nat)), "\n**⚽ Rounds**: "@);
        lemma_concat_associative(("**Region: "@ + region_name(region) + " insight.**\n# Overall statistics:\n**👥 Players**: "@), (nat_decimal(c.players as nat) + "\n**⚽ Rounds**: "@), nat_decimal(c.rounds as nat));
        lemma_concat_associative(("**Region: "@ + region_name(region) + " insight.**\n# Overall statistics:\n**👥 Players**: "@), (nat_decimal(c.players as nat) + "\n**⚽ Rounds**: "@ + nat_decimal(c.rounds as nat)), "\n# Round "@);
        lemma_concat_associative(("**Region: "@ + region_name(region) + " insight.**\n# Overall statistics:\n**👥 Players**: "@), (nat_decimal(c.players as nat) + "\n**⚽ Rounds**: "@ + nat_decimal(c.rounds as nat) + "\n# Round "@), int_decimal(c.current_round as int));
        lemma_concat_associative(("**Region: "@ + region_name(region) + " insight.**\n# Overall statistics:\n**👥 Players**: "@), (nat_decimal(c.players as nat) + "\n**⚽ Rounds**: "@ + nat_decimal(c.rounds as nat) + "\n# Round "@ + int_decimal(c.current_round as int)), " statistics:\n**⚔️ Matches**: "@);
        lemma_concat_associative(("**Region: "@ + region_name(region) + " insight.**\n# Overall statistics:\n**👥 Players**: "@), (nat_decimal(c.players as nat) + "\n**⚽ Rounds**: "@ + nat_decimal(c.rounds as nat) + "\n# Round "@ + int_decimal(c.current_round as int) + " statistics:\n**⚔️ Matches**: "@), nat_decimal(c.matches as nat));
        lemma_concat_associative(("**Region: "@ + region_name(region) + " insight.**\n# Overall statistics:\n**👥 Players**: "@), (nat_decimal(c.players as nat) + "\n**⚽ Rounds**: "@ + nat_decimal(c.rounds as nat) + "\n# Round "@ + int_decimal(c.current_round as int) + " statistics:\n**⚔️ Matches**: "@ + nat_decimal(c.matches as nat)), "\n**👥 Players:**: "@);
        lemma_concat_associative(("**Region: "@ + region_name(region) + " insight.**\n# Overall statistics:\n**👥 Players**: "@), (nat_decimal(c.players as nat) + "\n**⚽ Rounds**: "@ + nat_decimal(c.rounds as nat) + "\n# Round "@ + int_decimal(c.current_round as int) + " statistics:\n**⚔️ Matches**: "@ + nat_decimal(c.matches as nat) + "\n**👥 Players:**: "@), nat_decimal(c.current_players as nat));
        lemma_concat_associative(("**Region: "@ + region_name(region) + " insight.**\n# Overall statistics:\n**👥 Players**: "@), (nat_decimal(c.players as nat) + "\n**⚽ Rounds**: "@ + nat_decimal(c.rounds as nat) + "\n# Round "@ + int_decimal(c.current_round as int) + " statistics:\n**⚔️ Matches**: "@ + nat_decimal(c.matches as nat) + "\n**👥 Players:**: "@ + nat_decimal(c.current_players as nat)), "\n**👋 Byes:**: "@);
        lemma_concat_associative(("**Region: "@ + region_name(region) + " insight.**\n# Overall statistics:\n**👥 Players**: "@), (nat_decimal(c.players as nat) + "\n**⚽ Rounds**: "@ + nat_decimal(c.rounds as nat) + "\n# Round "@ + int_decimal(c.current_round as int) + " statistics:\n**⚔️ Matches**: "@ + nat_decimal(c.matches as nat) + "\n**👥 Players:**: "@ + nat_decimal(c.current_players as nat) + "\n**👋 Byes:**: "@), nat_decimal(c.byes as nat));
        lemma_concat_associative(("**Region: "@ + region_name(region) + " insight.**\n# Overall statistics:\n**👥 Players**: "@), (nat_decimal(c.players as nat) + "\n**⚽ Rounds**: "@ + nat_decimal(c.rounds as nat) + "\n# Round "@ + int_decimal(c.current_round as int) + " statistics:\n**⚔️ Matches**: "@ + nat_decimal(c.matches as nat) + "\n**👥 Players:**: "@ + nat_decimal(c.current_players as nat) + "\n**👋 Byes:**: "@ + nat_decimal(c.byes as nat)), " (Note: disqualifed player will be replaced by bye)\n**🏆 Advanced to next round**: "@);
        lemma_concat_associative(("**Region: "@ + region_name(region) + " insight.**\n# Overall statistics:\n**👥 Players**: "@), (nat_decimal(c.players as nat) + "\n**⚽ Rounds**: "@ + nat_decimal(c.rounds as nat) + "\n# Round "@ + int_decimal(c.current_round as int) + " statistics:\n**⚔️ Matches**: "@ + nat_decimal(c.matches as nat) + "\n**👥 Players:**: "@ + nat_decimal(c.current_players as nat) + "\n**👋 Byes:**: "@ + nat_decimal(c.byes as nat) + " (Note: disqualifed player will be replaced by bye)\n**🏆 Advanced to next round**: "@), nat_decimal(c.advanced as nat));
        lemma_concat_associative(("**Region: "@ + region_name(region) + " insight.**\n# Overall statistics:\n**👥 Players**: "@), (nat_decimal(c.players as nat) + "\n**⚽ Rounds**: "@ + nat_decimal(c.rounds as nat) + "\n# Round "@ + int_decimal(c.current_round as int) + " statistics:\n**⚔️ Matches**: "@ + nat_decimal(c.matches as nat) + "\n**👥 Players:**: "@ + nat_decimal(c.current_players as nat) + "\n**👋 Byes:**: "@ + nat_decimal(c.byes as nat) + " (Note: disqualifed player will be replaced by bye)\n**🏆 Advanced to next round**: "@ + nat_decimal(c.advanced as nat)), "\n**❌ Eliminated**: "@);
        lemma_concat_associative(("**Region: "@ + region_name(region) + " insight.**\n# Overall statistics:\n**👥 Players**: "@), (nat_decimal(c.players as nat) + "\n**⚽ Rounds**: "@ + nat_decimal(c.rounds as nat) + "\n# Round "@ + int_decimal(c.current_round as int) + " statistics:\n**⚔️ Matches**: "@ + nat_decimal(c.matches as nat) + "\n**👥 Players:**: "@ + nat_decimal(c.current_players as nat) + "\n**👋 Byes:**: "@ + nat_decimal(c.byes as nat) + " (Note: disqualifed player will be replaced by bye)\n**🏆 Advanced to next round**: "@ + nat_decimal(c.advanced as nat) + "\n**❌ Eliminated**: "@), nat_decimal(c.eliminated as nat));
        lemma_concat_associative(("**Region: "@ + region_name(region) + " insight.**\n# Overall statistics:\n**👥 Players**: "@), (nat_decimal(c.players as nat) + "\n**⚽ Rounds**: "@ + nat_decimal(c.rounds as nat) + "\n# Round "@ + int_decimal(c.current_round as int) + " statistics:\n**⚔️ Matches**: "@ + nat_decimal(c.matches as nat) + "\n**👥 Players:**: "@ + nat_decimal(c.current_players as nat) + "\n**👋 Byes:**: "@ + nat_decimal(c.byes as nat) + " (Note: disqualifed player will be replaced by bye)\n**🏆 Advanced to next round**: "@ + nat_decimal(c.advanced as nat) + "\n**❌ Eliminated**: "@ + nat_decimal(c.eliminated as nat)), "\n**🚩 Matches taken place**: "@);
        lemma_concat_associative(("**Region: "@ + region_name(region) + " insight.**\n# Overall statistics:\n**👥 Players**: "@), (nat_decimal(c.players as nat) + "\n**⚽ Rounds**: "@ + nat_decimal(c.rounds as nat) + "\n# Round "@ + int_decimal(c.current_round as int) + " statistics:\n**⚔️ Matches**: "@ + nat_decimal(c.matches as nat) + "\n**👥 Players:**: "@ + nat_decimal(c.current_players as nat) + "\n**👋 Byes:**: "@ + nat_decimal(c.byes as nat) + " (Note: disqualifed player will be replaced by bye)\n**🏆 Advanced to next round**: "@ + nat_decimal(c.advanced as nat) + "\n**❌ Eliminated**: "@ + nat_decimal(c.eliminated as nat) + "\n**🚩 Matches taken place**: "@), nat_decimal(c.played as nat));
        lemma_concat_associative(("**Region: "@ + region_name(region) + " insight.**\n# Overall statistics:\n**👥 Players**: "@), (nat_decimal(c.players as nat) + "\n**⚽ Rounds**: "@ + nat_decimal(c.rounds as nat) + "\n# Round "@ + int_decimal(c.current_round as int) + " statistics:\n**⚔️ Matches**: "@ + nat_decimal(c.matches as nat) + "\n**👥 Players:**: "@ + nat_decimal(c.current_players as nat) + "\n**👋 Byes:**: "@ + nat_decimal(c.byes as nat) + " (Note: disqualifed player will be replaced by bye)\n**🏆 Advanced to next round**: "@ + nat_decimal(c.advanced as nat) + "\n**❌ Eliminated**: "@ + nat_decimal(c.eliminated as nat) + "\n**🚩 Matches taken place**: "@ + nat_decimal(c.played as nat)), "\n**🏁 Matches not yet happened**: "@);
        lemma_concat_associative(("**Region: "@ + region_name(region) + " insight.**\n# Overall statistics:\n**👥 Players**: "@), (nat_decimal(c.players as nat) + "\n**⚽ Rounds**: "@ + nat_decimal(c.rounds as nat) + "\n# Round "@ + int_decimal(c.current_round as int) + " statistics:\n**⚔️ Matches**: "@ + nat_decimal(c.matches as nat) + "\n**👥 Players:**: "@ + nat_decimal(c.current_players as nat) + "\n**👋 Byes:**: "@ + nat_decimal(c.byes as nat) + " (Note: disqualifed player will be replaced by bye)\n**🏆 Advanced to next round**: "@ + nat_decimal(c.advanced as nat) + "\n**❌ Eliminated**: "@ + nat_decimal(c.eliminated as nat) + "\n**🚩 Matches taken place**: "@ + nat_decimal(c.played as nat) + "\n**🏁 Matches not yet happened**: "@), nat_decimal(c.unplayed as nat));
        lemma_concat_associative(("**Region: "@ + region_name(region) + " insight.**\n# Overall statistics:\n**👥 Players**: "@), (nat_decimal(c.players as nat) + "\n**⚽ Rounds**: "@ + nat_decimal(c.rounds as nat) + "\n# Round "@ + int_decimal(c.current_round as int) + " statistics:\n**⚔️ Matches**: "@ + nat_decimal(c.matches as nat) + "\n**👥 Players:**: "@ + nat_decimal(c.current_players as nat) + "\n**👋 Byes:**: "@ + nat_decimal(c.byes as nat) + " (Note: disqualifed player will be replaced by bye)\n**🏆 Advanced to next round**: "@ + nat_decimal(c.advanced as nat) + "\n**❌ Eliminated**: "@ + nat_decimal(c.eliminated as nat) + "\n**🚩 Matches taken place**: "@ + nat_decimal(c.played as nat) + "\n**🏁 Matches not yet happened**: "@ + nat_decimal(c.unplayed as nat)), "\n**💀 Inactive players**: "@);
        lemma_concat_associative(("**Region: "@ + region_name(region) + " insight.**\n# Overall statistics:\n**👥 Players**: "@), (nat_decimal(c.players as nat) + "\n**⚽ Rounds**: "@ + nat_decimal(c.rounds as nat) + "\n# Round "@ + int_decimal(c.current_round as int) + " statistics:\n**⚔️ Matches**: "@ + nat_decimal(c.matches as nat) + "\n**👥 Players:**: "@ + nat_decimal(c.current_players as nat) + "\n**👋 Byes:**: "@ + nat_decimal(c.byes as nat) + " (Note: disqualifed player will be replaced by bye)\n**🏆 Advanced to next round**: "@ + nat_decimal(c.advanced as nat) + "\n**❌ Eliminated**: "@ + nat_decimal(c.eliminated as nat) + "\n**🚩 Matches taken place**: "@ + nat_decimal(c.played as nat) + "\n**🏁 Matches not yet happened**: "@ + nat_decimal(c.unplayed as nat) + "\n**💀 Inactive players**: "@), nat_decimal(c.inactive as nat));
        lemma_concat_associative(("**Region: "@ + region_name(region) + " insight.**\n# Overall statistics:\n**👥 Players**: "@), (nat_decimal(c.players as nat) + "\n**⚽ Rounds**: "@ + nat_decimal(c.rounds as nat) + "\n# Round "@ + int_decimal(c.current_round as int) + " statistics:\n**⚔️ Matches**: "@ + nat_decimal(c.matches as nat) + "\n**👥 Players:**: "@ + nat_decimal(c.current_players as nat) + "\n**👋 Byes:**: "@ + nat_decimal(c.byes as nat) + " (Note: disqualifed player will be replaced by bye)\n**🏆 Advanced to next round**: "@ + nat_decimal(c.advanced as nat) + "\n**❌ Eliminated**: "@ + nat_decimal(c.eliminated as nat) + "\n**🚩 Matches taken place**: "@ + nat_decimal(c.played as nat) + "\n**🏁 Matches not yet happened**: "@ + nat_decimal(c.unplayed as nat) + "\n**💀 Inactive players**: "@ + nat_decimal(c.inactive as nat)), "\n"@);
    }
    assert(report_text(region, c) == ("**Region: "@ + region_name(region) + " insight.**\n# Overall statistics:\n**👥 Players**: "@ + nat_decimal(c.players as nat) + "\n**⚽ Rounds**: "@) + (nat_decimal(c.rounds as nat) + "\n# Round "@ + int_decimal(c.current_round as int) + " statistics:\n**⚔️ Matches**: "@ + nat_decimal(c.matches as nat) + "\n**👥 Players:**: "@ + nat_decimal(c.current_players as nat) + "\n**👋 Byes:**: "@ + nat_decimal(c.byes as nat) + " (Note: disqualifed player will be replaced by bye)\n**🏆 Advanced to next round**: "@ + nat_decimal(c.advanced as nat) + "\n**❌ Eliminated**: "@ + nat_decimal(c.eliminated as nat) + "\n**🚩 Matches taken place**: "@ + nat_decimal(c.played as nat) + "\n**🏁 Matches not yet happened**: "@ + nat_decimal(c.unplayed as nat) + "\n**💀 Inactive players**: "@ + nat_decimal(c.inactive as nat) + "\n"@)) by {
        lemma_concat_associative(("**Region: "@ + region_name(region) + " insight.**\n# Overall statistics:\n**👥 Players**: "@ + nat_decimal(c.players as nat) + "\n**⚽ Rounds**: "@), (nat_decimal(c.rounds as nat)), "\n# Round "@);
        lemma_concat_associative(("**Region: "@ + region_name(region) + " insight.**\n# Overall statistics:\n**👥 Players**: "@ + nat_decimal(c.players as nat) + "\n**⚽ Rounds**: "@), (nat_decimal(c.rounds as nat) + "\n# Round "@), int_decimal(c.current_round as int));
        lemma_concat_associative(("**Region: "@ + region_name(region) + " insight.**\n# Overall statistics:\n**👥 Players**: "@ + nat_decimal(c.players as nat) + "\n**⚽ Rounds**: "@), (nat_decimal(c.rounds as nat) + "\n# Round "@ + int_decimal(c.current_round as int)), " statistics:\n**⚔️ Matches**: "@);
        lemma_concat_associative(("**Region: "@ + region_name(region) + " insight.**\n# Overall statistics:\n**👥 Players**: "@ + nat_decimal(c.players as nat) + "\n**⚽ Rounds**: "@), (nat_decimal(c.rounds as nat) + "\n# Round "@ + int_decimal(c.current_round as int) + " statistics:\n**⚔️ Matches**: "@), nat_decimal(c.matches as nat));
        lemma_concat_associative(("**Region: "@ + region_name(region) + " insight.**\n# Overall statistics:\n**👥 Players**: "@ + nat_decimal(c.players as nat) + "\n**⚽ Rounds**: "@), (nat_decimal(c.rounds as nat) + "\n# Round "@ + int_decimal(c.current_round as int) + " statistics:\n**⚔️ Matches**: "@ + nat_decimal(c.matches as nat)), "\n**👥 Players:**: "@);
        lemma_concat_associative(("**Region: "@ + region_name(region) + " insight.**\n# Overall statistics:\n**👥 Players**: "@ + nat_decimal(c.players as nat) + "\n**⚽ Rounds**: "@), (nat_decimal(c.rounds as nat) + "\n# Round "@ + int_decimal(c.current_round as int) + " statistics:\n**⚔️ Matches**: "@ + nat_decimal(c.matches as nat) + "\n**👥 Players:**: "@), nat_decimal(c.current_players as nat));
        lemma_concat_associative(("**Region: "@ + region_name(region) + " insight.**\n# Overall statistics:\n**👥 Players**: "@ + nat_decimal(c.players as nat) + "\n**⚽ Rounds**: "@), (nat_decimal(c.rounds as nat) + "\n# Round "@ + int_decimal(c.current_round as int) + " statistics:\n**⚔️ Matches**: "@ + nat_decimal(c.matches as nat) + "\n**👥 Players:**: "@ + nat_decimal(c.current_players as nat)), "\n**👋 Byes:**: "@);
        lemma_concat_associative(("**Region: "@ + region_name(region) + " insight.**\n# Overall statistics:\n**👥 Players**: "@ + nat_decimal(c.players as nat) + "\n**⚽ Rounds**: "@), (nat_decimal(c.rounds as nat) + "\n# Round "@ + int_decimal(c.current_round as int) + " statistics:\n**⚔️ Matches**: "@ + nat_decimal(c.matches as nat) + "\n**👥 Players:**: "@ + nat_decimal(c.current_players as nat) + "\n**👋 Byes:**: "@), nat_decimal(c.byes as nat));
        lemma_concat_associative(("**Region: "@ + region_name(region) + " insight.**\n# Overall statistics:\n**👥 Players**: "@ + nat_decimal(c.players as nat) + "\n**⚽ Rounds**: "@), (nat_decimal(c.rounds as nat) + "\n# Round "@ + int_decimal(c.current_round as int) + " statistics:\n**⚔️ Matches**: "@ + nat_decimal(c.matches as nat) + "\n**👥 Players:**: "@ + nat_decimal(c.current_players as nat) + "\n**👋 Byes:**: "@ + nat_decimal(c.byes as nat)), " (Note: disqualifed player will be replaced by bye)\n**🏆 Advanced to next round**: "@);
        lemma_concat_associative(("**Region: "@ + region_name(region) + " insight.**\n# Overall statistics:\n**👥 Players**: "@ + nat_decimal(c.players as nat) + "\n**⚽ Rounds**: "@), (nat_decimal(c.rounds as nat) + "\n# Round "@ + int_decimal(c.current_round as int) + " statistics:\n**⚔️ Matches**: "@ + nat_decimal(c.matches as nat) + "\n**👥 Players:**: "@ + nat_decimal(c.current_players as nat) + "\n**👋 Byes:**: "@ + nat_decimal(c.byes as nat) + " (Note: disqualifed player will be replaced by bye)\n**🏆 Advanced to next round**: "@), nat_decimal(c.advanced as nat));
        lemma_concat_associative(("**Region: "@ + region_name(region) + " insight.**\n# Overall statistics:\n**👥 Players**: "@ + nat_decimal(c.players as nat) + "\n**⚽ Rounds**: "@), (nat_decimal(c.rounds as nat) + "\n# Round "@ + int_decimal(c.current_round as int) + " statistics:\n**⚔️ Matches**: "@ + nat_decimal(c.matches as nat) + "\n**👥 Players:**: "@ + nat_decimal(c.current_players as nat) + "\n**👋 Byes:**: "@ + nat_decimal(c.byes as nat) + " (Note: disqualifed player will be replaced by bye)\n**🏆 Advanced to next round**: "@ + nat_decimal(c.advanced as nat)), "\n**❌ Eliminated**: "@);
        lemma_concat_associative(("**Region: "@ + region_name(region) + " insight.**\n# Overall statistics:\n**👥 Players**: "@ + nat_decimal(c.players as nat) + "\n**⚽ Rounds**: "@), (nat_decimal(c.rounds as nat) + "\n# Round "@ + int_decimal(c.current_round as int) + " statistics:\n**⚔️ Matches**: "@ + nat_decimal(c.matches as nat) + "\n**👥 Players:**: "@ + nat_decimal(c.current_players as nat) + "\n**👋 Byes:**: "@ + nat_decimal(c.byes as nat) + " (Note: disqualifed player will be replaced by bye)\n**🏆 Advanced to next round**: "@ + nat_decimal(c.advanced as nat) + "\n**❌ Eliminated**: "@), nat_decimal(c.eliminated as nat));
        lemma_concat_associative(("**Region: "@ + region_name(region) + " insight.**\n# Overall statistics:\n**👥 Players**: "@ + nat_decimal(c.players as nat) + "\n**⚽ Rounds**: "@), (nat_decimal(c.rounds as nat) + "\n# Round "@ + int_decimal(c.current_round as int) + " statistics:\n**⚔️ Matches**: "@ + nat_decimal(c.matches as nat) + "\n**👥 Players:**: "@ + nat_decimal(c.current_players as nat) + "\n**👋 Byes:**: "@ + nat_decimal(c.byes as nat) + " (Note: disqualifed player will be replaced by bye)\n**🏆 Advanced to next round**: "@ + nat_decimal(c.advanced as nat) + "\n**❌ Eliminated**: "@ + nat_decimal(c.eliminated as nat)), "\n**🚩 Matches taken place**: "@);
        lemma_concat_associative(("**Region: "@ + region_name(region) + " insight.**\n# Overall statistics:\n**👥 Players**: "@ + nat_decimal(c.players as nat) + "\n**⚽ Rounds**: "@), (nat_decimal(c.rounds as nat) + "\n# Round "@ + int_decimal(c.current_round as int) + " statistics:\n**⚔️ Matches**: "@ + nat_decimal(c.matches as nat) + "\n**👥 Players:**: "@ + nat_decimal(c.current_players as nat) + "\n**👋 Byes:**: "@ + nat_decimal(c.byes as nat) + " (Note: disqualifed player will be replaced by bye)\n**🏆 Advanced to next round**: "@ + nat_decimal(c.advanced as nat) + "\n**❌ Eliminated**: "@ + nat_decimal(c.eliminated as nat) + "\n**🚩 Matches taken place**: "@), nat_decimal(c.played as nat));
        lemma_concat_associative(("**Region: "@ + region_name(region) + " insight.**\n# Overall statistics:\n**👥 Players**: "@ + nat_decimal(c.players as nat) + "\n**⚽ Rounds**: "@), (nat_decimal(c.rounds as nat) + "\n# Round "@ + int_decimal(c.current_round as int) + " statistics:\n**⚔️ Matches**: "@ + nat_decimal(c.matches as nat) + "\n**👥 Players:**: "@ + nat_decimal(c.current_players as nat) + "\n**👋 Byes:**: "@ + nat_decimal(c.byes as nat) + " (Note: disqualifed player will be replaced by bye)\n**🏆 Advanced to next round**: "@ + nat_decimal(c.advanced as nat) + "\n**❌ Eliminated**: "@ + nat_decimal(c.eliminated as nat) + "\n**🚩 Matches taken place**: "@ + nat_decimal(c.played as nat)), "\n**🏁 Matches not yet happened**: "@);
        lemma_concat_associative(("**Region: "@ + region_name(region) + " insight.**\n# Overall statistics:\n**👥 Players**: "@ + nat_decimal(c.players as nat) + "\n**⚽ Rounds**: "@), (nat_decimal(c.rounds as nat) + "\n# Round "@ + int_decimal(c.current_round as int) + " statistics:\n**⚔️ Matches**: "@ + nat_decimal(c.matches as nat) + "\n**👥 Players:**: "@ + nat_decimal(c.current_players as nat) + "\n**👋 Byes:**: "@ + nat_decimal(c.byes as nat) + " (Note: disqualifed player will be replaced by bye)\n**🏆 Advanced to next round**: "@ + nat_decimal(c.advanced as nat) + "\n**❌ Eliminated**: "@ + nat_decimal(c.eliminated as nat) + "\n**🚩 Matches taken place**: "@ + nat_decimal(c.played as nat) + "\n**🏁 Matches not yet happened**: "@), nat_decimal(c.unplayed as nat));
        lemma_concat_associative(("**Region: "@ + region_name(region) + " insight.**\n# Overall statistics:\n**👥 Players**: "@ + nat_decimal(c.players as nat) + "\n**⚽ Rounds**: "@), (nat_decimal(c.rounds as nat) + "\n# Round "@ + int_decimal(c.current_round as int) + " statistics:\n**⚔️ Matches**: "@ + nat_decimal(c.matches as nat) + "\n**👥 Players:**: "@ + nat_decimal(c.current_players as nat) + "\n**👋 Byes:**: "@ + nat_decimal(c.byes as nat) + " (Note: disqualifed player will be replaced by bye)\n**🏆 Advanced to next round**: "@ + nat_decimal(c.advanced as nat) + "\n**❌ Eliminated**: "@ + nat_decimal(c.eliminated as nat) + "\n**🚩 Matches taken place**: "@ + nat_decimal(c.played as nat) + "\n**🏁 Matches not yet happened**: "@ + nat_decimal(c.unplayed as nat)), "\n**💀 Inactive players**: "@);
        lemma_concat_associative(("**Region: "@ + region_name(region) + " insight.**\n# Overall statistics:\n**👥 Players**: "@ + nat_decimal(c.players as nat) + "\n**⚽ Rounds**: "@), (nat_decimal(c.rounds as nat) + "\n# Round "@ + int_decimal(c.current_round as int) + " statistics:\n**⚔️ Matches**: "@ + nat_decimal(c.matches as nat) + "\n**👥 Players:**: "@ + nat_decimal(c.current_players as nat) + "\n**👋 Byes:**: "@ + nat_decimal(c.byes as nat) + " (Note: disqualifed player will be replaced by bye)\n**🏆 Advanced to next round**: "@ + nat_decimal(c.advanced as nat) + "\n**❌ Eliminated**: "@ + nat_decimal(c.eliminated as nat) + "\n**🚩 Matches taken place**: "@ + nat_decimal(c.played as nat) + "\n**🏁 Matches not yet happened**: "@ + nat_decimal(c.unplayed as nat) + "\n**💀 Inactive players**: "@), nat_decimal(c.inactive as nat));
        lemma_concat_associative(("**Region: "@ + region_name(region) + " insight.**\n# Overall statistics:\n**👥 Players**: "@ + nat_decimal(c.players as nat) + "\n**⚽ Rounds**: "@), (nat_decimal(c.rounds as nat) + "\n# Round "@ + int_decimal(c.current_round as int) + " statistics:\n**⚔️ Matches**: "@ + nat_decimal(c.matches as nat) + "\n**👥 Players:**: "@ + nat_decimal(c.current_players as nat) + "\n**👋 Byes:**: "@ + nat_decimal(c.byes as nat) + " (Note: disqualifed player will be replaced by bye)\n**🏆 Advanced to next round**: "@ + nat_decimal(c.advanced as nat) + "\n**❌ Eliminated**: "@ + nat_decimal(c.eliminated as nat) + "\n**🚩 Matches taken place**: "@ + nat_decimal(c.played as nat) + "\n**🏁 Matches not yet happened**: "@ + nat_decimal(c.unplayed as nat) + "\n**💀 Inactive players**: "@ + nat_decimal(c.inactive as nat)), "\n"@);
    }
    assert(report_text(region, c) == ("**Region: "@ + region_name(region)) + " insight.**\n# Overall statistics:\n**👥 Players**: "@ + nat_decimal(c.players as nat) + "\n**⚽ Rounds**: "@ + (nat_decimal(c.rounds as nat) + "\n# Round "@ + int_decimal(c.current_round as int) + " statistics:\n**⚔️ Matches**: "@ + nat_decimal(c.matches as nat) + "\n**👥 Players:**: "@ + nat_decimal(c.current_players as nat) + "\n**👋 Byes:**: "@ + nat_decimal(c.byes as nat) + " (Note: disqualifed player will be replaced by bye)\n**🏆 Advanced to next round**: "@ + nat_decimal(c.advanced as nat) + "\n**❌ Eliminated**: "@ + nat_decimal(c.eliminated as nat) + "\n**🚩 Matches taken place**: "@ + nat_decimal(c.played as nat) + "\n**🏁 Matches not yet happened**: "@ + nat_decimal(c.unplayed as nat) + "\n**💀 Inactive players**: "@ + nat_decimal(c.inactive as nat) + "\n"@));
    assert(report_text(region, c) == ("**Region: "@ + region_name(region) + " insight.**\n# Overall statistics:\n**👥 Players**: "@ + nat_decimal(c.players as nat) + "\n**⚽ Rounds**: "@ + nat_decimal(c.rounds as nat) + "\n# Round "@) + (int_decimal(c.current_round as int) + " statistics:\n**⚔️ Matches**: "@ + nat_decimal(c.matches as nat) + "\n**👥 Players:**: "@ + nat_decimal(c.current_players as nat) + "\n**👋 Byes:**: "@ + nat_decimal(c.byes as nat) + " (Note: disqualifed player will be replaced by bye)\n**🏆 Advanced to next round**: "@ + nat_decimal(c.advanced as nat) + "\n**❌ Eliminated**: "@ + nat_decimal(c.eliminated as nat) + "\n**🚩 Matches taken place**: "@ + nat_decimal(c.played as nat) + "\n**🏁 Matches not yet happened**: "@ + nat_decimal(c.unplayed as nat) + "\n**💀 Inactive players**: "@ + nat_decimal(c.inactive as nat) + "\n"@)) by {
        lemma_concat_associative(("**Region: "@ + region_name(region) + " insight.**\n# Overall statistics:\n**👥 Players**: "@ + nat_decimal(c.players as nat) + "\n**⚽ Rounds**: "@ + nat_decimal(c.rounds as nat) + "\n# Round "@), (int_decimal(c.current_round as int)), " statistics:\n**⚔️ Matches**: "@);
        lemma_concat_associative(("**Region: "@ + region_name(region) + " insight.**\n# Overall statistics:\n**👥 Players**: "@ + nat_decimal(c.players as nat) + "\n**⚽ Rounds**: "@ + nat_decimal(c.rounds as nat) + "\n# Round "@), (int_decimal(c.current_round as int) + " statistics:\n**⚔️ Matches**: "@), nat_decimal(c.matches as nat));
        lemma_concat_associative(("**Region: "@ + region_name(region) + " insight.**\n# Overall statistics:\n**👥 Players**: "@ + nat_decimal(c.players as nat) + "\n**⚽ Rounds**: "@ + nat_decimal(c.rounds as nat) + "\n# Round "@), (int_decimal(c.current_round as int) + " statistics:\n**⚔️ Matches**: "@ + nat_decimal(c.matches as nat)), "\n**👥 Players:**: "@);
        lemma_concat_associative(("**Region: "@ + region_name(region) + " insight.**\n# Overall statistics:\n**👥 Players**: "@ + nat_decimal(c.players as nat) + "\n**⚽ Rounds**: "@ + nat_decimal(c.rounds as nat) + "\n# Round "@), (int_decimal(c.current_round as int) + " statistics:\n**⚔️ Matches**: "@ + nat_decimal(c.matches as nat) + "\n**👥 Players:**: "@), nat_decimal(c.current_players as nat));
        lemma_concat_associative(("**Region: "@ + region_name(region) + " insight.**\n# Overall statistics:\n**👥 Players**: "@ + nat_decimal(c.players as nat) + "\n**⚽ Rounds**: "@ + nat_decimal(c.rounds as nat) + "\n# Round "@), (int_decimal(c.current_round as int) + " statistics:\n**⚔️ Matches**: "@ + nat_decimal(c.matches as nat) + "\n**👥 Players:**: "@ + nat_decimal(c.current_players as nat)), "\n**👋 Byes:**: "@);
        lemma_concat_associative(("**Region: "@ + region_name(region) + " insight.**\n# Overall statistics:\n**👥 Players**: "@ + nat_decimal(c.players as nat) + "\n**⚽ Rounds**: "@ + nat_decimal(c.rounds as nat) + "\n# Round "@), (int_decimal(c.current_round as int) + " statistics:\n**⚔️ Matches**: "@ + nat_decimal(c.matches as nat) + "\n**👥 Players:**: "@ + nat_decimal(c.current_players as nat) + "\n**👋 Byes:**: "@), nat_decimal(c.byes as nat));
        lemma_concat_associative(("**Region: "@ + region_name(region) + " insight.**\n# Overall statistics:\n**👥 Players**: "@ + nat_decimal(c.players as nat) + "\n**⚽ Rounds**: "@ + nat_decimal(c.rounds as nat) + "\n# Round "@), (int_decimal(c.current_round as int) + " statistics:\n**⚔️ Matches**: "@ + nat_decimal(c.matches as nat) + "\n**👥 Players:**: "@ + nat_decimal(c.current_players as nat) + "\n**👋 Byes:**: "@ + nat_decimal(c.byes as nat)), " (Note: disqualifed player will be replaced by bye)\n**🏆 Advanced to next round**: "@);
        lemma_concat_associative(("**Region: "@ + region_name(region) + " insight.**\n# Overall statistics:\n**👥 Players**: "@ + nat_decimal(c.players as nat) + "\n**⚽ Rounds**: "@ + nat_decimal(c.rounds as nat) + "\n# Round "@), (int_decimal(c.current_round as int) + " statistics:\n**⚔️ Matches**: "@ + nat_decimal(c.matches as nat) + "\n**👥 Players:**: "@ + nat_decimal(c.current_players as nat) + "\n**👋 Byes:**: "@ + nat_decimal(c.byes as nat) + " (Note: disqualifed player will be replaced by bye)\n**🏆 Advanced to next round**: "@), nat_decimal(c.advanced as nat));
        lemma_concat_associative(("**Region: "@ + region_name(region) + " insight.**\n# Overall statistics:\n**👥 Players**: "@ + nat_decimal(c.players as nat) + "\n**⚽ Rounds**: "@ + nat_decimal(c.rounds as nat) + "\n# Round "@), (int_decimal(c.current_round as int) + " statistics:\n**⚔️ Matches**: "@ + nat_decimal(c.matches as nat) + "\n**👥 Players:**: "@ + nat_decimal(c.current_players as nat) + "\n**👋 Byes:**: "@ + nat_decimal(c.byes as nat) + " (Note: disqualifed player will be replaced by bye)\n**🏆 Advanced to next round**: "@ + nat_decimal(c.advanced as nat)), "\n**❌ Eliminated**: "@);
        lemma_concat_associative(("**Region: "@ + region_name(region) + " insight.**\n# Overall statistics:\n**👥 Players**: "@ + nat_decimal(c.players as nat) + "\n**⚽ Rounds**: "@ + nat_decimal(c.rounds as nat) + "\n# Round "@), (int_decimal(c.current_round as int) + " statistics:\n**⚔️ Matches**: "@ + nat_decimal(c.matches as nat) + "\n**👥 Players:**: "@ + nat_decimal(c.current_players as nat) + "\n**👋 Byes:**: "@ + nat_decimal(c.byes as nat) + " (Note: disqualifed player will be replaced by bye)\n**🏆 Advanced to next round**: "@ + nat_decimal(c.advanced as nat) + "\n**❌ Eliminated**: "@), nat_decimal(c.eliminated as nat));
        lemma_concat_associative(("**Region: "@ + region_name(region) + " insight.**\n# Overall statistics:\n**👥 Players**: "@ + nat_decimal(c.players as nat) + "\n**⚽ Rounds**: "@ + nat_decimal(c.rounds as nat) + "\n# Round "@), (int_decimal(c.current_round as int) + " statistics:\n**⚔️ Matches**: "@ + nat_decimal(c.matches as nat) + "\n**👥 Players:**: "@ + nat_decimal(c.current_players as nat) + "\n**👋 Byes:**: "@ + nat_decimal(c.byes as nat) + " (Note: disqualifed player will be replaced by bye)\n**🏆 Advanced to next round**: "@ + nat_decimal(c.advanced as nat) + "\n**❌ Eliminated**: "@ + nat_decimal(c.eliminated as nat)), "\n**🚩 Matches taken place**: "@);
        lemma_concat_associative(("**Region: "@ + region_name(region) + " insight.**\n# Overall statistics:\n**👥 Players**: "@ + nat_decimal(c.players as nat) + "\n**⚽ Rounds**: "@ + nat_decimal(c.rounds as nat) + "\n# Round "@), (int_decimal(c.current_round as int) + " statistics:\n**⚔️ Matches**: "@ + nat_decimal(c.matches as nat) + "\n**👥 Players:**: "@ + nat_decimal(c.current_players as nat) + "\n**👋 Byes:**: "@ + nat_decimal(c.byes as nat) + " (Note: disqualifed player will be replaced by bye)\n**🏆 Advanced to next round**: "@ + nat_decimal(c.advanced as nat) + "\n**❌ Eliminated**: "@ + nat_decimal(c.eliminated as nat) + "\n**🚩 Matches taken place**: "@), nat_decimal(c.played as nat));
        lemma_concat_associative(("**Region: "@ + region_name(region) + " insight.**\n# Overall statistics:\n**👥 Players**: "@ + nat_decimal(c.players as nat) + "\n**⚽ Rounds**: "@ + nat_decimal(c.rounds as nat) + "\n# Round "@), (int_decimal(c.current_round as int) + " statistics:\n**⚔️ Matches**: "@ + nat_decimal(c.matches as nat) + "\n**👥 Players:**: "@ + nat_decimal(c.current_players as nat) + "\n**👋 Byes:**: "@ + nat_decimal(c.byes as nat) + " (Note: disqualifed player will be replaced by bye)\n**🏆 Advanced to next round**: "@ + nat_decimal(c.advanced as nat) + "\n**❌ Eliminated**: "@ + nat_decimal(c.eliminated as nat) + "\n**🚩 Matches taken place**: "@ + nat_decimal(c.played as nat)), "\n**🏁 Matches not yet happened**: "@);
        lemma_concat_associative(("**Region: "@ + region_name(region) + " insight.**\n# Overall statistics:\n**👥 Players**: "@ + nat_decimal(c.players as nat) + "\n**⚽ Rounds**: "@ + nat_decimal(c.rounds as nat) + "\n# Round "@), (int_decimal(c.current_round as int) + " statistics:\n**⚔️ Matches**: "@ + nat_decimal(c.matches as nat) + "\n**👥 Players:**: "@ + nat_decimal(c.current_players as nat) + "\n**👋 Byes:**: "@ + nat_decimal(c.byes as nat) + " (Note: disqualifed player will be replaced by bye)\n**🏆 Advanced to next round**: "@ + nat_decimal(c.advanced as nat) + "\n**❌ Eliminated**: "@ + nat_decimal(c.eliminated as nat) + "\n**🚩 Matches taken place**: "@ + nat_decimal(c.played as nat) + "\n**🏁 Matches not yet happened**: "@), nat_decimal(c.unplayed as nat));
        lemma_concat_associative(("**Region: "@ + region_name(region) + " insight.**\n# Overall statistics:\n**👥 Players**: "@ + nat_decimal(c.players as nat) + "\n**⚽ Rounds**: "@ + nat_decimal(c.rounds as nat) + "\n# Round "@), (int_decimal(c.current_round as int) + " statistics:\n**⚔️ Matches**: "@ + nat_decimal(c.matches as nat) + "\n**👥 Players:**: "@ + nat_decimal(c.current_players as nat) + "\n**👋 Byes:**: "@ + nat_decimal(c.byes as nat) + " (Note: disqualifed player will be replaced by bye)\n**🏆 Advanced to next round**: "@ + nat_decimal(c.advanced as nat) + "\n**❌ Eliminated**: "@ + nat_decimal(c.eliminated as nat) + "\n**🚩 Matches taken place**: "@ + nat_decimal(c.played as nat) + "\n**🏁 Matches not yet happened**: "@ + nat_decimal(c.unplayed as nat)), "\n**💀 Inactive players**: "@);
        lemma_concat_associative(("**Region: "@ + region_name(region) + " insight.**\n# Overall statistics:\n**👥 Players**: "@ + nat_decimal(c.players as nat) + "\n**⚽ Rounds**: "@ + nat_decimal(c.rounds as nat) + "\n# Round "@), (int_decimal(c.current_round as int) + " statistics:\n**⚔️ Matches**: "@ + nat_decimal(c.matches as nat) + "\n**👥 Players:**: "@ + nat_decimal(c.current_players as nat) + "\n**👋 Byes:**: "@ + nat_decimal(c.byes as nat) + " (Note: disqualifed player will be replaced by bye)\n**🏆 Advanced to next round**: "@ + nat_decimal(c.advanced as nat) + "\n**❌ Eliminated**: "@ + nat_decimal(c.eliminated as nat) + "\n**🚩 Matches taken place**: "@ + nat_decimal(c.played as nat) + "\n**🏁 Matches not yet happened**: "@ + nat_decimal(c.unplayed as nat) + "\n**💀 Inactive players**: "@), nat_decimal(c.inactive as nat));
        lemma_concat_associative(("**Region: "@ + region_name(region) + " insight.**\n# Overall statistics:\n**👥 Players**: "@ + nat_decimal(c.players as nat) + "\n**⚽ Rounds**: "@ + nat_decimal(c.rounds as nat) + "\n# Round "@), (int_decimal(c.current_round as int) + " statistics:\n**⚔️ Matches**: "@ + nat_decimal(c.matches as nat) + "\n**👥 Players:**: "@ + nat_decimal(c.current_players as nat) + "\n**👋 Byes:**: "@ + nat_decimal(c.byes as nat) + " (Note: disqualifed player will be replaced by bye)\n**🏆 Advanced to next round**: "@ + nat_decimal(c.advanced as nat) + "\n**❌ Eliminated**: "@ + nat_decimal(c.eliminated as nat) + "\n**🚩 Matches taken place**: "@ + nat_decimal(c.played as nat) + "\n**🏁 Matches not yet happened**: "@ + nat_decimal(c.unplayed as nat) + "\n**💀 Inactive players**: "@ + nat_decimal(c.inactive as nat)), "\n"@);
    }
    assert(report_text(region, c) == ("**Region: "@ + region_name(region) + " insight.**\n# Overall statistics:\n**👥 Players**: "@ + nat_decimal(c.players as nat)) + "\n**⚽ Rounds**: "@ + nat_decimal(c.rounds as nat) + "\n# Round "@ + (int_decimal(c.current_round as int) + " statistics:\n**⚔️ Matches**: "@ + nat_decimal(c.matches as nat) + "\n**👥 Players:**: "@ + nat_decimal(c.current_players as nat) + "\n**👋 Byes:**: "@ + nat_decimal(c.byes as nat) + " (Note: disqualifed player will be replaced by bye)\n**🏆 Advanced to next round**: "@ + nat_decimal(c.advanced as nat) + "\n**❌ Eliminated**: "@ + nat_decimal(c.eliminated as nat) + "\n**🚩 Matches taken place**: "@ + nat_decimal(c.played as nat) + "\n**🏁 Matches not yet happened**: "@ + nat_decimal(c.unplayed as nat) + "\n**💀 Inactive players**: "@ + nat_decimal(c.inactive as nat) + "\n"@));
    assert(report_text(region, c) == ("**Region: "@ + region_name(region) + " insight.**\n# Overall statistics:\n**👥 Players**: "@ + nat_decimal(c.players as nat) + "\n**⚽ Rounds**: "@ + nat_decimal(c.rounds as nat) + "\n# Round "@ + int_decimal(c.current_round as int) + " statistics:\n**⚔️ Matches**: "@) + (nat_decimal(c.matches as nat) + "\n**👥 Players:**: "@ + nat_decimal(c.current_players as nat) + "\n**👋 Byes:**: "@ + nat_decimal(c.byes as nat) + " (Note: disqualifed player will be replaced by bye)\n**🏆 Advanced to next round**: "@ + nat_decimal(c.advanced as nat) + "\n**❌ Eliminated**: "@ + nat_decimal(c.eliminated as nat) + "\n**🚩 Matches taken place**: "@ + nat_decimal(c.played as nat) + "\n**🏁 Matches not yet happened**: "@ + nat_decimal(c.unplayed as nat) + "\n**💀 Inactive players**: "@ + nat_decimal(c.inactive as nat) + "\n"@)) by {
        lemma_concat_associative(("**Region: "@ + region_name(region) + " insight.**\n# Overall statistics:\n**👥 Players**: "@ + nat_decimal(c.players as nat) + "\n**⚽ Rounds**: "@ + nat_decimal(c.rounds as nat) + "\n# Round "@ + int_decimal(c.current_round as int) + " statistics:\n**⚔️ Matches**: "@), (nat_decimal(c.matches as nat)), "\n**👥 Players:**: "@);
        lemma_concat_associative(("**Region: "@ + region_name(region) + " insight.**\n# Overall statistics:\n**👥 Players**: "@ + nat_decimal(c.players as nat) + "\n**⚽ Rounds**: "@ + nat_decimal(c.rounds as nat) + "\n# Round "@ + int_decimal(c.current_round as int) + " statistics:\n**⚔️ Matches**: "@), (nat_decimal(c.matches as nat) + "\n**👥 Players:**: "@), nat_decimal(c.current_players as nat));
        lemma_concat_associative(("**Region: "@ + region_name(region) + " insight.**\n# Overall statistics:\n**👥 Players**: "@ + nat_decimal(c.players as nat) + "\n**⚽ Rounds**: "@ + nat_decimal(c.rounds as nat) + "\n# Round "@ + int_decimal(c.current_round as int) + " statistics:\n**⚔️ Matches**: "@), (nat_decimal(c.matches as nat) + "\n**👥 Players:**: "@ + nat_decimal(c.current_players as nat)), "\n**👋 Byes:**: "@);
        lemma_concat_associative(("**Region: "@ + region_name(region) + " insight.**\n# Overall statistics:\n**👥 Players**: "@ + nat_decimal(c.players as nat) + "\n**⚽ Rounds**: "@ + nat_decimal(c.rounds as nat) + "\n# Round "@ + int_decimal(c.current_round as int) + " statistics:\n**⚔️ Matches**: "@), (nat_decimal(c.matches as nat) + "\n**👥 Players:**: "@ + nat_decimal(c.current_players as nat) + "\n**👋 Byes:**: "@), nat_decimal(c.byes as nat));
        lemma_concat_associative(("**Region: "@ + region_name(region) + " insight.**\n# Overall statistics:\n**👥 Players**: "@ + nat_decimal(c.players as nat) + "\n**⚽ Rounds**: "@ + nat_decimal(c.rounds as nat) + "\n# Round "@ + int_decimal(c.current_round as int) + " statistics:\n**⚔️ Matches**: "@), (nat_decimal(c.matches as nat) + "\n**👥 Players:**: "@ + nat_decimal(c.current_players as nat) + "\n**👋 Byes:**: "@ + nat_decimal(c.byes as nat)), " (Note: disqualifed player will be replaced by bye)\n**🏆 Advanced to next round**: "@);
        lemma_concat_associative(("**Region: "@ + region_name(region) + " insight.**\n# Overall statistics:\n**👥 Players**: "@ + nat_decimal(c.players as nat) + "\n**⚽ Rounds**: "@ + nat_decimal(c.rounds as nat) + "\n# Round "@ + int_decimal(c.current_round as int) + " statistics:\n**⚔️ Matches**: "@), (nat_decimal(c.matches as nat) + "\n**👥 Players:**: "@ + nat_decimal(c.current_players as nat) + "\n**👋 Byes:**: "@ + nat_decimal(c.byes as nat) + " (Note: disqualifed player will be replaced by bye)\n**🏆 Advanced to next round**: "@), nat_decimal(c.advanced as nat));
        lemma_concat_associative(("**Region: "@ + region_name(region) + " insight.**\n# Overall statistics:\n**👥 Players**: "@ + nat_decimal(c.players as nat) + "\n**⚽ Rounds**: "@ + nat_decimal(c.rounds as nat) + "\n# Round "@ + int_decimal(c.current_round as int) + " statistics:\n**⚔️ Matches**: "@), (nat_decimal(c.matches as nat) + "\n**👥 Players:**: "@ + nat_decimal(c.current_players as nat) + "\n**👋 Byes:**: "@ + nat_decimal(c.byes as nat) + " (Note: disqualifed player will be replaced by bye)\n**🏆 Advanced to next round**: "@ + nat_decimal(c.advanced as nat)), "\n**❌ Eliminated**: "@);
        lemma_concat_associative(("**Region: "@ + region_name(region) + " insight.**\n# Overall statistics:\n**👥 Players**: "@ + nat_decimal(c.players as nat) + "\n**⚽ Rounds**: "@ + nat_decimal(c.rounds as nat) + "\n# Round "@ + int_decimal(c.current_round as int) + " statistics:\n**⚔️ Matches**: "@), (nat_decimal(c.matches as nat) + "\n**👥 Players:**: "@ + nat_decimal(c.current_players as nat) + "\n**👋 Byes:**: "@ + nat_decimal(c.byes as nat) + " (Note: disqualifed player will be replaced by bye)\n**🏆 Advanced to next round**: "@ + nat_decimal(c.advanced as nat) + "\n**❌ Eliminated**: "@), nat_decimal(c.eliminated as nat));
        lemma_concat_associative(("**Region: "@ + region_name(region) + " insight.**\n# Overall statistics:\n**👥 Players**: "@ + nat_decimal(c.players as nat) + "\n**⚽ Rounds**: "@ + nat_decimal(c.rounds as nat) + "\n# Round "@ + int_decimal(c.current_round as int) + " statistics:\n**⚔️ Matches**: "@), (nat_decimal(c.matches as nat) + "\n**👥 Players:**: "@ + nat_decimal(c.current_players as nat) + "\n**👋 Byes:**: "@ + nat_decimal(c.byes as nat) + " (Note: disqualifed player will be replaced by bye)\n**🏆 Advanced to next round**: "@ + nat_decimal(c.advanced as nat) + "\n**❌ Eliminated**: "@ + nat_decimal(c.eliminated as nat)), "\n**🚩 Matches taken place**: "@);
        lemma_concat_associative(("**Region: "@ + region_name(region) + " insight.**\n# Overall statistics:\n**👥 Players**: "@ + nat_decimal(c.players as nat) + "\n**⚽ Rounds**: "@ + nat_decimal(c.rounds as nat) + "\n# Round "@ + int_decimal(c.current_round as int) + " statistics:\n**⚔️ Matches**: "@), (nat_decimal(c.matches as nat) + "\n**👥 Players:**: "@ + nat_decimal(c.current_players as nat) + "\n**👋 Byes:**: "@ + nat_decimal(c.byes as nat) + " (Note: disqualifed player will be replaced by bye)\n**🏆 Advanced to next round**: "@ + nat_decimal(c.advanced as nat) + "\n**❌ Eliminated**: "@ + nat_decimal(c.eliminated as nat) + "\n**🚩 Matches taken place**: "@), nat_decimal(c.played as nat));
        lemma_concat_associative(("**Region: "@ + region_name(region) + " insight.**\n# Overall statistics:\n**👥 Players**: "@ + nat_decimal(c.players as nat) + "\n**⚽ Rounds**: "@ + nat_decimal(c.rounds as nat) + "\n# Round "@ + int_decimal(c.current_round as int) + " statistics:\n**⚔️ Matches**: "@), (nat_decimal(c.matches as nat) + "\n**👥 Players:**: "@ + nat_decimal(c.current_players as nat) + "\n**👋 Byes:**: "@ + nat_decimal(c.byes as nat) + " (Note: disqualifed player will be replaced by bye)\n**🏆 Advanced to next round**: "@ + nat_decimal(c.advanced as nat) + "\n**❌ Eliminated**: "@ + nat_decimal(c.eliminated as nat) + "\n**🚩 Matches taken place**: "@ + nat_decimal(c.played as nat)), "\n**🏁 Matches not yet happened**: "@);
        lemma_concat_associative(("**Region: "@ + region_name(region) + " insight.**\n# Overall statistics:\n**👥 Players**: "@ + nat_decimal(c.players as nat) + "\n**⚽ Rounds**: "@ + nat_decimal(c.rounds as nat) + "\n# Round "@ + int_decimal(c.current_round as int) + " statistics:\n**⚔️ Matches**: "@), (nat_decimal(c.matches as nat) + "\n**👥 Players:**: "@ + nat_decimal(c.current_players as nat) + "\n**👋 Byes:**: "@ + nat_decimal(c.byes as nat) + " (Note: disqualifed player will be replaced by bye)\n**🏆 Advanced to next round**: "@ + nat_decimal(c.advanced as nat) + "\n**❌ Eliminated**: "@ + nat_decimal(c.eliminated as nat) + "\n**🚩 Matches taken place**: "@ + nat_decimal(c.played as nat) + "\n**🏁 Matches not yet happened**: "@), nat_decimal(c.unplayed as nat));
        lemma_concat_associative(("**Region: "@ + region_name(region) + " insight.**\n# Overall statistics:\n**👥 Players**: "@ + nat_decimal(c.players as nat) + "\n**⚽ Rounds**: "@ + nat_decimal(c.rounds as nat) + "\n# Round "@ + int_decimal(c.current_round as int) + " statistics:\n**⚔️ Matches**: "@), (nat_decimal(c.matches as nat) + "\n**👥 Players:**: "@ + nat_decimal(c.current_players as nat) + "\n**👋 Byes:**: "@ + nat_decimal(c.byes as nat) + " (Note: disqualifed player will be replaced by bye)\n**🏆 Advanced to next round**: "@ + nat_decimal(c.advanced as nat) + "\n**❌ Eliminated**: "@ + nat_decimal(c.eliminated as nat) + "\n**🚩 Matches taken place**: "@ + nat_decimal(c.played as nat) + "\n**🏁 Matches not yet happened**: "@ + nat_decimal(c.unplayed as nat)), "\n**💀 Inactive players**: "@);
        lemma_concat_associative(("**Region: "@ + region_name(region) + " insight.**\n# Overall statistics:\n**👥 Players**: "@ + nat_decimal(c.players as nat) + "\n**⚽ Rounds**: "@ + nat_decimal(c.rounds as nat) + "\n# Round "@ + int_decimal(c.current_round as int) + " statistics:\n**⚔️ Matches**: "@), (nat_decimal(c.matches as nat) + "\n**👥 Players:**: "@ + nat_decimal(c.current_players as nat) + "\n**👋 Byes:**: "@ + nat_decimal(c.byes as nat) + " (Note: disqualifed player will be replaced by bye)\n**🏆 Advanced to next round**: "@ + nat_decimal(c.advanced as nat) + "\n**❌ Eliminated**: "@ + nat_decimal(c.eliminated as nat) + "\n**🚩 Matches taken place**: "@ + nat_decimal(c.played as nat) + "\n**🏁 Matches not yet happened**: "@ + nat_decimal(c.unplayed as nat) + "\n**💀 Inactive players**: "@), nat_decimal(c.inactive as nat));
        lemma_concat_associative(("**Region: "@ + region_name(region) + " insight.**\n# Overall statistics:\n**👥 Players**: "@ + nat_decimal(c.players as nat) + "\n**⚽ Rounds**: "@ + nat_decimal(c.rounds as nat) + "\n# Round "@ + int_decimal(c.current_round as int) + " statistics:\n**⚔️ Matches**: "@), (nat_decimal(c.matches as nat) + "\n**👥 Players:**: "@ + nat_decimal(c.current_players as nat) + "\n**👋 Byes:**: "@ + nat_decimal(c.byes as nat) + " (Note: disqualifed player will be replaced by bye)\n**🏆 Advanced to next round**: "@ + nat_decimal(c.advanced as nat) + "\n**❌ Eliminated**: "@ + nat_decimal(c.eliminated as nat) + "\n**🚩 Matches taken place**: "@ + nat_decimal(c.played as nat) + "\n**🏁 Matches not yet happened**: "@ + nat_decimal(c.unplayed as nat) + "\n**💀 Inactive players**: "@ + nat_decimal(c.inactive as nat)), "\n"@);
    }
    assert(report_text(region, c) == ("**Region: "@ + region_name(region) + " insight.**\n# Overall statistics:\n**👥 Players**: "@ + nat_decimal(c.players as nat) + "\n**⚽ Rounds**: "@ + nat_decimal(c.rounds as nat)) + "\n# Round "@ + int_decimal(c.current_round as int) + " statistics:\n**⚔️ Matches**: "@ + (nat_decimal(c.matches as nat) + "\n**👥 Players:**: "@ + nat_decimal(c.current_players as nat) + "\n**👋 Byes:**: "@ + nat_decimal(c.byes as nat) + " (Note: disqualifed player will be replaced by bye)\n**🏆 Advanced to next round**: "@ + nat_decimal(c.advanced as nat) + "\n**❌ Eliminated**: "@ + nat_decimal(c.eliminated as nat) + "\n**🚩 Matches taken place**: "@ + nat_decimal(c.played as nat) + "\n**🏁 Matches not yet happened**: "@ + nat_decimal(c.unplayed as nat) + "\n**💀 Inactive players**: "@ + nat_decimal(c.inactive as nat) + "\n"@));
    assert(report_text(region, c) == ("**Region: "@ + region_name(region) + " insight.**\n# Overall statistics:\n**👥 Players**: "@ + nat_decimal(c.players as nat) + "\n**⚽ Rounds**: "@ + nat_decimal(c.rounds as nat) + "\n# Round "@ + int_decimal(c.current_round as int) + " statistics:\n**⚔️ Matches**: "@ + nat_decimal(c.matches as nat) + "\n**👥 Players:**: "@) + (nat_decimal(c.current_players as nat) + "\n**👋 Byes:**: "@ + nat_decimal(c.byes as nat) + " (Note: disqualifed player will be replaced by bye)\n**🏆 Advanced to next round**: "@ + nat_decimal(c.advanced as nat) + "\n**❌ Eliminated**: "@ + nat_decimal(c.eliminated as nat) + "\n**🚩 Matches taken place**: "@ + nat_decimal(c.played as nat) + "\n**🏁 Matches not yet happened**: "@ + nat_decimal(c.unplayed as nat) + "\n**💀 Inactive players**: "@ + nat_decimal(c.inactive as nat) + "\n"@)) by {
        lemma_concat_associative(("**Region: "@ + region_name(region) + " insight.**\n# Overall statistics:\n**👥 Players**: "@ + nat_decimal(c.players as nat) + "\n**⚽ Rounds**: "@ + nat_decimal(c.rounds as nat) + "\n# Round "@ + int_decimal(c.current_round as int) + " statistics:\n**⚔️ Matches**: "@ + nat_decimal(c.matches as nat) + "\n**👥 Players:**: "@), (nat_decimal(c.current_players as nat)), "\n**👋 Byes:**: "@);
        lemma_concat_associative(("**Region: "@ + region_name(region) + " insight.**\n# Overall statistics:\n**👥 Players**: "@ + nat_decimal(c.players as nat) + "\n**⚽ Rounds**: "@ + nat_decimal(c.rounds as nat) + "\n# Round "@ + int_decimal(c.current_round as int) + " statistics:\n**⚔️ Matches**: "@ + nat_decimal(c.matches as nat) + "\n**👥 Players:**: "@), (nat_decimal(c.current_players as nat) + "\n**👋 Byes:**: "@), nat_decimal(c.byes as nat));
        lemma_concat_associative(("**Region: "@ + region_name(region) + " insight.**\n# Overall statistics:\n**👥 Players**: "@ + nat_decimal(c.players as nat) + "\n**⚽ Rounds**: "@ + nat_decimal(c.rounds as nat) + "\n# Round "@ + int_decimal(c.current_round as int) + " statistics:\n**⚔️ Matches**: "@ + nat_decimal(c.matches as nat) + "\n**👥 Players:**: "@), (nat_decimal(c.current_players as nat) + "\n**👋 Byes:**: "@ + nat_decimal(c.byes as nat)), " (Note: disqualifed player will be replaced by bye)\n**🏆 Advanced to next round**: "@);
        lemma_concat_associative(("**Region: "@ + region_name(region) + " insight.**\n# Overall statistics:\n**👥 Players**: "@ + nat_decimal(c.players as nat) + "\n**⚽ Rounds**: "@ + nat_decimal(c.rounds as nat) + "\n# Round "@ + int_decimal(c.current_round as int) + " statistics:\n**⚔️ Matches**: "@ + nat_decimal(c.matches as nat) + "\n**👥 Players:**: "@), (nat_decimal(c.current_players as nat) + "\n**👋 Byes:**: "@ + nat_decimal(c.byes as nat) + " (Note: disqualifed player will be replaced by bye)\n**🏆 Advanced to next round**: "@), nat_decimal(c.advanced as nat));
        lemma_concat_associative(("**Region: "@ + region_name(region) + " insight.**\n# Overall statistics:\n**👥 Players**: "@ + nat_decimal(c.players as nat) + "\n**⚽ Rounds**: "@ + nat_decimal(c.rounds as nat) + "\n# Round "@ + int_decimal(c.current_round as int) + " statistics:\n**⚔️ Matches**: "@ + nat_decimal(c.matches as nat) + "\n**👥 Players:**: "@), (nat_decimal(c.current_players as nat) + "\n**👋 Byes:**: "@ + nat_decimal(c.byes as nat) + " (Note: disqualifed player will be replaced by bye)\n**🏆 Advanced to next round**: "@ + nat_decimal(c.advanced as nat)), "\n**❌ Eliminated**: "@);
        lemma_concat_associative(("**Region: "@ + region_name(region) + " insight.**\n# Overall statistics:\n**👥 Players**: "@ + nat_decimal(c.players as nat) + "\n**⚽ Rounds**: "@ + nat_decimal(c.rounds as nat) + "\n# Round "@ + int_decimal(c.current_round as int) + " statistics:\n**⚔️ Matches**: "@ + nat_decimal(c.matches as nat) + "\n**👥 Players:**: "@), (nat_decimal(c.current_players as nat) + "\n**👋 Byes:**: "@ + nat_decimal(c.byes as nat) + " (Note: disqualifed player will be replaced by bye)\n**🏆 Advanced to next round**: "@ + nat_decimal(c.advanced as nat) + "\n**❌ Eliminated**: "@), nat_decimal(c.eliminated as nat));
        lemma_concat_associative(("**Region: "@ + region_name(region) + " insight.**\n# Overall statistics:\n**👥 Players**: "@ + nat_decimal(c.players as nat) + "\n**⚽ Rounds**: "@ + nat_decimal(c.rounds as nat) + "\n# Round "@ + int_decimal(c.current_round as int) + " statistics:\n**⚔️ Matches**: "@ + nat_decimal(c.matches as nat) + "\n**👥 Players:**: "@), (nat_decimal(c.current_players as nat) + "\n**👋 Byes:**: "@ + nat_decimal(c.byes as nat) + " (Note: disqualifed player will be replaced by bye)\n**🏆 Advanced to next round**: "@ + nat_decimal(c.advanced as nat) + "\n**❌ Eliminated**: "@ + nat_decimal(c.eliminated as nat)), "\n**🚩 Matches taken place**: "@);
        lemma_concat_associative(("**Region: "@ + region_name(region) + " insight.**\n# Overall statistics:\n**👥 Players**: "@ + nat_decimal(c.players as nat) + "\n**⚽ Rounds**: "@ + nat_decimal(c.rounds as nat) + "\n# Round "@ + int_decimal(c.current_round as int) + " statistics:\n**⚔️ Matches**: "@ + nat_decimal(c.matches as nat) + "\n**👥 Players:**: "@), (nat_decimal(c.current_players as nat) + "\n**👋 Byes:**: "@ + nat_decimal(c.byes as nat) + " (Note: disqualifed player will be replaced by bye)\n**🏆 Advanced to next round**: "@ + nat_decimal(c.advanced as nat) + "\n**❌ Eliminated**: "@ + nat_decimal(c.eliminated as nat) + "\n**🚩 Matches taken place**: "@), nat_decimal(c.played as nat));
        lemma_concat_associative(("**Region: "@ + region_name(region) + " insight.**\n# Overall statistics:\n**👥 Players**: "@ + nat_decimal(c.players as nat) + "\n**⚽ Rounds**: "@ + nat_decimal(c.rounds as nat) + "\n# Round "@ + int_decimal(c.current_round as int) + " statistics:\n**⚔️ Matches**: "@ + nat_decimal(c.matches as nat) + "\n**👥 Players:**: "@), (nat_decimal(c.current_players as nat) + "\n**👋 Byes:**: "@ + nat_decimal(c.byes as nat) + " (Note: disqualifed player will be replaced by bye)\n**🏆 Advanced to next round**: "@ + nat_decimal(c.advanced as nat) + "\n**❌ Eliminated**: "@ + nat_decimal(c.eliminated as nat) + "\n**🚩 Matches taken place**: "@ + nat_decimal(c.played as nat)), "\n**🏁 Matches not yet happened**: "@);
        lemma_concat_associative(("**Region: "@ + region_name(region) + " insight.**\n# Overall statistics:\n**👥 Players**: "@ + nat_decimal(c.players as nat) + "\n**⚽ Rounds**: "@ + nat_decimal(c.rounds as nat) + "\n# Round "@ + int_decimal(c.current_round as int) + " statistics:\n**⚔️ Matches**: "@ + nat_decimal(c.matches as nat) + "\n**👥 Players:**: "@), (nat_decimal(c.current_players as nat) + "\n**👋 Byes:**: "@ + nat_decimal(c.byes as nat) + " (Note: disqualifed player will be replaced by bye)\n**🏆 Advanced to next round**: "@ + nat_decimal(c.advanced as nat) + "\n**❌ Eliminated**: "@ + nat_decimal(c.eliminated as nat) + "\n**🚩 Matches taken place**: "@ + nat_decimal(c.played as nat) + "\n**🏁 Matches not yet happened**: "@), nat_decimal(c.unplayed as nat));
        lemma_concat_associative(("**Region: "@ + region_name(region) + " insight.**\n# Overall statistics:\n**👥 Players**: "@ + nat_decimal(c.players as nat) + "\n**⚽ Rounds**: "@ + nat_decimal(c.rounds as nat) + "\n# Round "@ + int_decimal(c.current_round as int) + " statistics:\n**⚔️ Matches**: "@ + nat_decimal(c.matches as nat) + "\n**👥 Players:**: "@), (nat_decimal(c.current_players as nat) + "\n**👋 Byes:**: "@ + nat_decimal(c.byes as nat) + " (Note: disqualifed player will be replaced by bye)\n**🏆 Advanced to next round**: "@ + nat_decimal(c.advanced as nat) + "\n**❌ Eliminated**: "@ + nat_decimal(c.eliminated as nat) + "\n**🚩 Matches taken place**: "@ + nat_decimal(c.played as nat) + "\n**🏁 Matches not yet happened**: "@ + nat_decimal(c.unplayed as nat)), "\n**💀 Inactive players**: "@);
        lemma_concat_associative(("**Region: "@ + region_name(region) + " insight.**\n# Overall statistics:\n**👥 Players**: "@ + nat_decimal(c.players as nat) + "\n**⚽ Rounds**: "@ + nat_decimal(c.rounds as nat) + "\n# Round "@ + int_decimal(c.current_round as int) + " statistics:\n**⚔️ Matches**: "@ + nat_decimal(c.matches as nat) + "\n**👥 Players:**: "@), (nat_decimal(c.current_players as nat) + "\n**👋 Byes:**: "@ + nat_decimal(c.byes as nat) + " (Note: disqualifed player will be replaced by bye)\n**🏆 Advanced to next round**: "@ + nat_decimal(c.advanced as nat) + "\n**❌ Eliminated**: "@ + nat_decimal(c.eliminated as nat) + "\n**🚩 Matches taken place**: "@ + nat_decimal(c.played as nat) + "\n**🏁 Matches not yet happened**: "@ + nat_decimal(c.unplayed as nat) + "\n**💀 Inactive players**: "@), nat_decimal(c.inactive as nat));
        lemma_concat_associative(("**Region: "@ + region_name(region) + " insight.**\n# Overall statistics:\n**👥 Players**: "@ + nat_decimal(c.players as nat) + "\n**⚽ Rounds**: "@ + nat_decimal(c.rounds as nat) + "\n# Round "@ + int_decimal(c.current_round as int) + " statistics:\n**⚔️ Matches**: "@ + nat_decimal(c.matches as nat) + "\n**👥 Players:**: "@), (nat_decimal(c.current_players as nat) + "\n**👋 Byes:**: "@ + nat_decimal(c.byes as nat) + " (Note: disqualifed player will be replaced by bye)\n**🏆 Advanced to next round**: "@ + nat_decimal(c.advanced as nat) + "\n**❌ Eliminated**: "@ + nat_decimal(c.eliminated as nat) + "\n**🚩 Matches taken place**: "@ + nat_decimal(c.played as nat) + "\n**🏁 Matches not yet happened**: "@ + nat_decimal(c.unplayed as nat) + "\n**💀 Inactive players**: "@ + nat_decimal(c.inactive as nat)), "\n"@);
    }
    assert(report_text(region, c) == ("**Region: "@ + region_name(region) + " insight.**\n# Overall statistics:\n**👥 Players**: "@ + nat_decimal(c.players as nat) + "\n**⚽ Rounds**: "@ + nat_decimal(c.rounds as nat) + "\n# Round "@ + int_decimal(c.current_round as int)) + " statistics:\n**⚔️ Matches**: "@ + nat_decimal(c.matches as nat) + "\n**👥 Players:**: "@ + (nat_decimal(c.current_players as nat) + "\n**👋 Byes:**: "@ + nat_decimal(c.byes as nat) + " (Note: disqualifed player will be replaced by bye)\n**🏆 Advanced to next round**: "@ + nat_decimal(c.advanced as nat) + "\n**❌ Eliminated**: "@ + nat_decimal(c.eliminated as nat) + "\n**🚩 Matches taken place**: "@ + nat_decimal(c.played as nat) + "\n**🏁 Matches not yet happened**: "@ + nat_decimal(c.unplayed as nat) + "\n**💀 Inactive players**: "@ + nat_decimal(c.inactive as nat) + "\n"@));
    assert(report_text(region, c) == ("**Region: "@ + region_name(region) + " insight.**\n# Overall statistics:\n**👥 Players**: "@ + nat_decimal(c.players as nat) + "\n**⚽ Rounds**: "@ + nat_decimal(c.rounds as nat) + "\n# Round "@ + int_decimal(c.current_round as int) + " statistics:\n**⚔️ Matches**: "@ + nat_decimal(c.matches as nat) + "\n**👥 Players:**: "@ + nat_decimal(c.current_players as nat) + "\n**👋 Byes:**: "@) + (nat_decimal(c.byes as nat) + " (Note: disqualifed player will be replaced by bye)\n**🏆 Advanced to next round**: "@ + nat_decimal(c.advanced as nat) + "\n**❌ Eliminated**: "@ + nat_decimal(c.eliminated as nat) + "\n**🚩 Matches taken place**: "@ + nat_decimal(c.played as nat) + "\n**🏁 Matches not yet happened**: "@ + nat_decimal(c.unplayed as nat) + "\n**💀 Inactive players**: "@ + nat_decimal(c.inactive as nat) + "\n"@)) by {
        lemma_concat_associative(("**Region: "@ + region_name(region) + " insight.**\n# Overall statistics:\n**👥 Players**: "@ + nat_decimal(c.players as nat) + "\n**⚽ Rounds**: "@ + nat_decimal(c.rounds as nat) + "\n# Round "@ + int_decimal(c.current_round as int) + " statistics:\n**⚔️ Matches**: "@ + nat_decimal(c.matches as nat) + "\n**👥 Players:**: "@ + nat_decimal(c.current_players as nat) + "\n**👋 Byes:**: "@), (nat_decimal(c.byes as nat)), " (Note: disqualifed player will be replaced by bye)\n**🏆 Advanced to next round**: "@);
        lemma_concat_associative(("**Region: "@ + region_name(region) + " insight.**\n# Overall statistics:\n**👥 Players**: "@ + nat_decimal(c.players as nat) + "\n**⚽ Rounds**: "@ + nat_decimal(c.rounds as nat) + "\n# Round "@ + int_decimal(c.current_round as int) + " statistics:\n**⚔️ Matches**: "@ + nat_decimal(c.matches as nat) + "\n**👥 Players:**: "@ + nat_decimal(c.current_players as nat) + "\n**👋 Byes:**: "@), (nat_decimal(c.byes as nat) + " (Note: disqualifed player will be replaced by bye)\n**🏆 Advanced to next round**: "@), nat_decimal(c.advanced as nat));
        lemma_concat_associative(("**Region: "@ + region_name(region) + " insight.**\n# Overall statistics:\n**👥 Players**: "@ + nat_decimal(c.players as nat) + "\n**⚽ Rounds**: "@ + nat_decimal(c.rounds as nat) + "\n# Round "@ + int_decimal(c.current_round as int) + " statistics:\n**⚔️ Matches**: "@ + nat_decimal(c.matches as nat) + "\n**👥 Players:**: "@ + nat_decimal(c.current_players as nat) + "\n**👋 Byes:**: "@), (nat_decimal(c.byes as nat) + " (Note: disqualifed player will be replaced by bye)\n**🏆 Advanced to next round**: "@ + nat_decimal(c.advanced as nat)), "\n**❌ Eliminated**: "@);
        lemma_concat_associative(("**Region: "@ + region_name(region) + " insight.**\n# Overall statistics:\n**👥 Players**: "@ + nat_decimal(c.players as nat) + "\n**⚽ Rounds**: "@ + nat_decimal(c.rounds as nat) + "\n# Round "@ + int_decimal(c.current_round as int) + " statistics:\n**⚔️ Matches**: "@ + nat_decimal(c.matches as nat) + "\n**👥 Players:**: "@ + nat_decimal(c.current_players as nat) + "\n**👋 Byes:**: "@), (nat_decimal(c.byes as nat) + " (Note: disqualifed player will be replaced by bye)\n**🏆 Advanced to next round**: "@ + nat_decimal(c.advanced as nat) + "\n**❌ Eliminated**: "@), nat_decimal(c.eliminated as nat));
        lemma_concat_associative(("**Region: "@ + region_name(region) + " insight.**\n# Overall statistics:\n**👥 Players**: "@ + nat_decimal(c.players as nat) + "\n**⚽ Rounds**: "@ + nat_decimal(c.rounds as nat) + "\n# Round "@ + int_decimal(c.current_round as int) + " statistics:\n**⚔️ Matches**: "@ + nat_decimal(c.matches as nat) + "\n**👥 Players:**: "@ + nat_decimal(c.current_players as nat) + "\n**👋 Byes:**: "@), (nat_decimal(c.byes as nat) + " (Note: disqualifed player will be replaced by bye)\n**🏆 Advanced to next round**: "@ + nat_decimal(c.advanced as nat) + "\n**❌ Eliminated**: "@ + nat_decimal(c.eliminated as nat)), "\n**🚩 Matches taken place**: "@);
        lemma_concat_associative(("**Region: "@ + region_name(region) + " insight.**\n# Overall statistics:\n**👥 Players**: "@ + nat_decimal(c.players as nat) + "\n**⚽ Rounds**: "@ + nat_decimal(c.rounds as nat) + "\n# Round "@ + int_decimal(c.current_round as int) + " statistics:\n**⚔️ Matches**: "@ + nat_decimal(c.matches as nat) + "\n**👥 Players:**: "@ + nat_decimal(c.current_players as nat) + "\n**👋 Byes:**: "@), (nat_decimal(c.byes as nat) + " (Note: disqualifed player will be replaced by bye)\n**🏆 Advanced to next round**: "@ + nat_decimal(c.advanced as nat) + "\n**❌ Eliminated**: "@ + nat_decimal(c.eliminated as nat) + "\n**🚩 Matches taken place**: "@), nat_decimal(c.played as nat));
        lemma_concat_associative(("**Region: "@ + region_name(region) + " insight.**\n# Overall statistics:\n**👥 Players**: "@ + nat_decimal(c.players as nat) + "\n**⚽ Rounds**: "@ + nat_decimal(c.rounds as nat) + "\n# Round "@ + int_decimal(c.current_round as int) + " statistics:\n**⚔️ Matches**: "@ + nat_decimal(c.matches as nat) + "\n**👥 Players:**: "@ + nat_decimal(c.current_players as nat) + "\n**👋 Byes:**: "@), (nat_decimal(c.byes as nat) + " (Note: disqualifed player will be replaced by bye)\n**🏆 Advanced to next round**: "@ + nat_decimal(c.advanced as nat) + "\n**❌ Eliminated**: "@ + nat_decimal(c.eliminated as nat) + "\n**🚩 Matches taken place**: "@ + nat_decimal(c.played as nat)), "\n**🏁 Matches not yet happened**: "@);
        lemma_concat_associative(("**Region: "@ + region_name(region) + " insight.**\n# Overall statistics:\n**👥 Players**: "@ + nat_decimal(c.players as nat) + "\n**⚽ Rounds**: "@ + nat_decimal(c.rounds as nat) + "\n# Round "@ + int_decimal(c.current_round as int) + " statistics:\n**⚔️ Matches**: "@ + nat_decimal(c.matches as nat) + "\n**👥 Players:**: "@ + nat_decimal(c.current_players as nat) + "\n**👋 Byes:**: "@), (nat_decimal(c.byes as nat) + " (Note: disqualifed player will be replaced by bye)\n**🏆 Advanced to next round**: "@ + nat_decimal(c.advanced as nat) + "\n**❌ Eliminated**: "@ + nat_decimal(c.eliminated as nat) + "\n**🚩 Matches taken place**: "@ + nat_decimal(c.played as nat) + "\n**🏁 Matches not yet happened**: "@), nat_decimal(c.unplayed as nat));
        lemma_concat_associative(("**Region: "@ + region_name(region) + " insight.**\n# Overall statistics:\n**👥 Players**: "@ + nat_decimal(c.players as nat) + "\n**⚽ Rounds**: "@ + nat_decimal(c.rounds as nat) + "\n# Round "@ + int_decimal(c.current_round as int) + " statistics:\n**⚔️ Matches**: "@ + nat_decimal(c.matches as nat) + "\n**👥 Players:**: "@ + nat_decimal(c.current_players as nat) + "\n**👋 Byes:**: "@), (nat_decimal(c.byes as nat) + " (Note: disqualifed player will be replaced by bye)\n**🏆 Advanced to next round**: "@ + nat_decimal(c.advanced as nat) + "\n**❌ Eliminated**: "@ + nat_decimal(c.eliminated as nat) + "\n**🚩 Matches taken place**: "@ + nat_decimal(c.played as nat) + "\n**🏁 Matches not yet happened**: "@ + nat_decimal(c.unplayed as nat)), "\n**💀 Inactive players**: "@);
        lemma_concat_associative(("**Region: "@ + region_name(region) + " insight.**\n# Overall statistics:\n**👥 Players**: "@ + nat_decimal(c.players as nat) + "\n**⚽ Rounds**: "@ + nat_decimal(c.rounds as nat) + "\n# Round "@ + int_decimal(c.current_round as int) + " statistics:\n**⚔️ Matches**: "@ + nat_decimal(c.matches as nat) + "\n**👥 Players:**: "@ + nat_decimal(c.current_players as nat) + "\n**👋 Byes:**: "@), (nat_decimal(c.byes as nat) + " (Note: disqualifed player will be replaced by bye)\n**🏆 Advanced to next round**: "@ + nat_decimal(c.advanced as nat) + "\n**❌ Eliminated**: "@ + nat_decimal(c.eliminated as nat) + "\n**🚩 Matches taken place**: "@ + nat_decimal(c.played as nat) + "\n**🏁 Matches not yet happened**: "@ + nat_decimal(c.unplayed as nat) + "\n**💀 Inactive players**: "@), nat_decimal(c.inactive as nat));
        lemma_concat_associative(("**Region: "@ + region_name(region) + " insight.**\n# Overall statistics:\n**👥 Players**: "@ + nat_decimal(c.players as nat) + "\n**⚽ Rounds**: "@ + nat_decimal(c.rounds as nat) + "\n# Round "@ + int_decimal(c.current_round as int) + " statistics:\n**⚔️ Matches**: "@ + nat_decimal(c.matches as nat) + "\n**👥 Players:**: "@ + nat_decimal(c.current_players as nat) + "\n**👋 Byes:**: "@), (nat_decimal(c.byes as nat) + " (Note: disqualifed player will be replaced by bye)\n**🏆 Advanced to next round**: "@ + nat_decimal(c.advanced as nat) + "\n**❌ Eliminated**: "@ + nat_decimal(c.eliminated as nat) + "\n**🚩 Matches taken place**: "@ + nat_decimal(c.played as nat) + "\n**🏁 Matches not yet happened**: "@ + nat_decimal(c.unplayed as nat) + "\n**💀 Inactive players**: "@ + nat_decimal(c.inactive as nat)), "\n"@);
    }
    assert(report_text(region, c) == ("**Region: "@ + region_name(region) + " insight.**\n# Overall statistics:\n**👥 Players**: "@ + nat_decimal(c.players as nat) + "\n**⚽ Rounds**: "@ + nat_decimal(c.rounds as nat) + "\n# Round "@ + int_decimal(c.current_round as int) + " statistics:\n**⚔️ Matches**: "@ + nat_decimal(c.matches as nat)) + "\n**👥 Players:**: "@ + nat_decimal(c.current_players as nat) + "\n**👋 Byes:**: "@ + (nat_decimal(c.byes as nat) + " (Note: disqualifed player will be replaced by bye)\n**🏆 Advanced to next round**: "@ + nat_decimal(c.advanced as nat) + "\n**❌ Eliminated**: "@ + nat_decimal(c.eliminated as nat) + "\n**🚩 Matches taken place**: "@ + nat_decimal(c.played as nat) + "\n**🏁 Matches not yet happened**: "@ + nat_decimal(c.unplayed as nat) + "\n**💀 Inactive players**: "@ + nat_decimal(c.inactive as nat) + "\n"@));
    assert(report_text(region, c) == ("**Region: "@ + region_name(region) + " insight.**\n# Overall statistics:\n**👥 Players**: "@ + nat_decimal(c.players as nat) + "\n**⚽ Rounds**: "@ + nat_decimal(c.rounds as nat) + "\n# Round "@ + int_decimal(c.current_round as int) + " statistics:\n**⚔️ Matches**: "@ + nat_decimal(c.matches as nat) + "\n**👥 Players:**: "@ + nat_decimal(c.current_players as nat) + "\n**👋 Byes:**: "@ + nat_decimal(c.byes as nat) + " (Note: disqualifed player will be replaced by bye)\n**🏆 Advanced to next round**: "@) + (nat_decimal(c.advanced as nat) + "\n**❌ Eliminated**: "@ + nat_decimal(c.eliminated as nat) + "\n**🚩 Matches taken place**: "@ + nat_decimal(c.played as nat) + "\n**🏁 Matches not yet happened**: "@ + nat_decimal(c.unplayed as nat) + "\n**💀 Inactive players**: "@ + nat_decimal(c.inactive as nat) + "\n"@)) by {
        lemma_concat_associative(("**Region: "@ + region_name(region) + " insight.**\n# Overall statistics:\n**👥 Players**: "@ + nat_decimal(c.players as nat) + "\n**⚽ Rounds**: "@ + nat_decimal(c.rounds as nat) + "\n# Round "@ + int_decimal(c.current_round as int) + " statistics:\n**⚔️ Matches**: "@ + nat_decimal(c.matches as nat) + "\n**👥 Players:**: "@ + nat_decimal(c.current_players as nat) + "\n**👋 Byes:**: "@ + nat_decimal(c.byes as nat) + " (Note: disqualifed player will be replaced by bye)\n**🏆 Advanced to next round**: "@), (nat_decimal(c.advanced as nat)), "\n**❌ Eliminated**: "@);
        lemma_concat_associative(("**Region: "@ + region_name(region) + " insight.**\n# Overall statistics:\n**👥 Players**: "@ + nat_decimal(c.players as nat) + "\n**⚽ Rounds**: "@ + nat_decimal(c.rounds as nat) + "\n# Round "@ + int_decimal(c.current_round as int) + " statistics:\n**⚔️ Matches**: "@ + nat_decimal(c.matches as nat) + "\n**👥 Players:**: "@ + nat_decimal(c.current_players as nat) + "\n**👋 Byes:**: "@ + nat_decimal(c.byes as nat) + " (Note: disqualifed player will be replaced by bye)\n**🏆 Advanced to next round**: "@), (nat_decimal(c.advanced as nat) + "\n**❌ Eliminated**: "@), nat_decimal(c.eliminated as nat));
        lemma_concat_associative(("**Region: "@ + region_name(region) + " insight.**\n# Overall statistics:\n**👥 Players**: "@ + nat_decimal(c.players as nat) + "\n**⚽ Rounds**: "@ + nat_decimal(c.rounds as nat) + "\n# Round "@ + int_decimal(c.current_round as int) + " statistics:\n**⚔️ Matches**: "@ + nat_decimal(c.matches as nat) + "\n**👥 Players:**: "@ + nat_decimal(c.current_players as nat) + "\n**👋 Byes:**: "@ + nat_decimal(c.byes as nat) + " (Note: disqualifed player will be replaced by bye)\n**🏆 Advanced to next round**: "@), (nat_decimal(c.advanced as nat) + "\n**❌ Eliminated**: "@ + nat_decimal(c.eliminated as nat)), "\n**🚩 Matches taken place**: "@);
        lemma_concat_associative(("**Region: "@ + region_name(region) + " insight.**\n# Overall statistics:\n**👥 Players**: "@ + nat_decimal(c.players as nat) + "\n**⚽ Rounds**: "@ + nat_decimal(c.rounds as nat) + "\n# Round "@ + int_decimal(c.current_round as int) + " statistics:\n**⚔️ Matches**: "@ + nat_decimal(c.matches as nat) + "\n**👥 Players:**: "@ + nat_decimal(c.current_players as nat) + "\n**👋 Byes:**: "@ + nat_decimal(c.byes as nat) + " (Note: disqualifed player will be replaced by bye)\n**🏆 Advanced to next round**: "@), (nat_decimal(c.advanced as nat) + "\n**❌ Eliminated**: "@ + nat_decimal(c.eliminated as nat) + "\n**🚩 Matches taken place**: "@), nat_decimal(c.played as nat));
        lemma_concat_associative(("**Region: "@ + region_name(region) + " insight.**\n# Overall statistics:\n**👥 Players**: "@ + nat_decimal(c.players as nat) + "\n**⚽ Rounds**: "@ + nat_decimal(c.rounds as nat) + "\n# Round "@ + int_decimal(c.current_round as int) + " statistics:\n**⚔️ Matches**: "@ + nat_decimal(c.matches as nat) + "\n**👥 Players:**: "@ + nat_decimal(c.current_players as nat) + "\n**👋 Byes:**: "@ + nat_decimal(c.byes as nat) + " (Note: disqualifed player will be replaced by bye)\n**🏆 Advanced to next round**: "@), (nat_decimal(c.advanced as nat) + "\n**❌ Eliminated**: "@ + nat_decimal(c.eliminated as nat) + "\n**🚩 Matches taken place**: "@ + nat_decimal(c.played as nat)), "\n**🏁 Matches not yet happened**: "@);
        lemma_concat_associative(("**Region: "@ + region_name(region) + " insight.**\n# Overall statistics:\n**👥 Players**: "@ + nat_decimal(c.players as nat) + "\n**⚽ Rounds**: "@ + nat_decimal(c.rounds as nat) + "\n# Round "@ + int_decimal(c.current_round as int) + " statistics:\n**⚔️ Matches**: "@ + nat_decimal(c.matches as nat) + "\n**👥 Players:**: "@ + nat_decimal(c.current_players as nat) + "\n**👋 Byes:**: "@ + nat_decimal(c.byes as nat) + " (Note: disqualifed player will be replaced by bye)\n**🏆 Advanced to next round**: "@), (nat_decimal(c.advanced as nat) + "\n**❌ Eliminated**: "@ + nat_decimal(c.eliminated as nat) + "\n**🚩 Matches taken place**: "@ + nat_decimal(c.played as nat) + "\n**🏁 Matches not yet happened**: "@), nat_decimal(c.unplayed as nat));
        lemma_concat_associative(("**Region: "@ + region_name(region) + " insight.**\n# Overall statistics:\n**👥 Players**: "@ + nat_decimal(c.players as nat) + "\n**⚽ Rounds**: "@ + nat_decimal(c.rounds as nat) + "\n# Round "@ + int_decimal(c.current_round as int) + " statistics:\n**⚔️ Matches**: "@ + nat_decimal(c.matches as nat) + "\n**👥 Players:**: "@ + nat_decimal(c.current_players as nat) + "\n**👋 Byes:**: "@ + nat_decimal(c.byes as nat) + " (Note: disqualifed player will be replaced by bye)\n**🏆 Advanced to next round**: "@), (nat_decimal(c.advanced as nat) + "\n**❌ Eliminated**: "@ + nat_decimal(c.eliminated as nat) + "\n**🚩 Matches taken place**: "@ + nat_decimal(c.played as nat) + "\n**🏁 Matches not yet happened**: "@ + nat_decimal(c.unplayed as nat)), "\n**💀 Inactive players**: "@);
        lemma_concat_associative(("**Region: "@ + region_name(region) + " insight.**\n# Overall statistics:\n**👥 Players**: "@ + nat_decimal(c.players as nat) + "\n**⚽ Rounds**: "@ + nat_decimal(c.rounds as nat) + "\n# Round "@ + int_decimal(c.current_round as int) + " statistics:\n**⚔️ Matches**: "@ + nat_decimal(c.matches as nat) + "\n**👥 Players:**: "@ + nat_decimal(c.current_players as nat) + "\n**👋 Byes:**: "@ + nat_decimal(c.byes as nat) + " (Note: disqualifed player will be replaced by bye)\n**🏆 Advanced to next round**: "@), (nat_decimal(c.advanced as nat) + "\n**❌ Eliminated**: "@ + nat_decimal(c.eliminated as nat) + "\n**🚩 Matches taken place**: "@ + nat_decimal(c.played as nat) + "\n**🏁 Matches not yet happened**: "@ + nat_decimal(c.unplayed as nat) + "\n**💀 Inactive players**: "@), nat_decimal(c.inactive as nat));
        lemma_concat_associative(("**Region: "@ + region_name(region) + " insight.**\n# Overall statistics:\n**👥 Players**: "@ + nat_decimal(c.players as nat) + "\n**⚽ Rounds**: "@ + nat_decimal(c.rounds as nat) + "\n# Round "@ + int_decimal(c.current_round as int) + " statistics:\n**⚔️ Matches**: "@ + nat_decimal(c.matches as nat) + "\n**👥 Players:**: "@ + nat_decimal(c.current_players as nat) + "\n**👋 Byes:**: "@ + nat_decimal(c.byes as nat) + " (Note: disqualifed player will be replaced by bye)\n**🏆 Advanced to next round**: "@), (nat_decimal(c.advanced as nat) + "\n**❌ Eliminated**: "@ + nat_decimal(c.eliminated as nat) + "\n**🚩 Matches taken place**: "@ + nat_decimal(c.played as nat) + "\n**🏁 Matches not yet happened**: "@ + nat_decimal(c.unplayed as nat) + "\n**💀 Inactive players**: "@ + nat_decimal(c.inactive as nat)), "\n"@);
    }
    assert(report_text(region, c) == ("**Region: "@ + region_name(region) + " insight.**\n# Overall statistics:\n**👥 Players**: "@ + nat_decimal(c.players as nat) + "\n**⚽ Rounds**: "@ + nat_decimal(c.rounds as nat) + "\n# Round "@ + int_decimal(c.current_round as int) + " statistics:\n**⚔️ Matches**: "@ + nat_decimal(c.matches as nat) + "\n**👥 Players:**: "@ + nat_decimal(c.current_players as nat)) + "\n**👋 Byes:**: "@ + nat_decimal(c.byes as nat) + " (Note: disqualifed player will be replaced by bye)\n**🏆 Advanced to next round**: "@ + (nat_decimal(c.advanced as nat) + "\n**❌ Eliminated**: "@ + nat_decimal(c.eliminated as nat) + "\n**🚩 Matches taken place**: "@ + nat_decimal(c.played as nat) + "\n**🏁 Matches not yet happened**: "@ + nat_decimal(c.unplayed as nat) + "\n**💀 Inactive players**: "@ + nat_decimal(c.inactive as nat) + "\n"@));
    assert(report_text(region, c) == ("**Region: "@ + region_name(region) + " insight.**\n# Overall statistics:\n**👥 Players**: "@ + nat_decimal(c.players as nat) + "\n**⚽ Rounds**: "@ + nat_decimal(c.rounds as nat) + "\n# Round "@ + int_decimal(c.current_round as int) + " statistics:\n**⚔️ Matches**: "@ + nat_decimal(c.matches as nat) + "\n**👥 Players:**: "@ + nat_decimal(c.current_players as nat) + "\n**👋 Byes:**: "@ + nat_decimal(c.byes as nat) + " (Note: disqualifed player will be replaced by bye)\n**🏆 Advanced to next round**: "@ + nat_decimal(c.advanced as nat) + "\n**❌ Eliminated**: "@) + (nat_decimal(c.eliminated as nat) + "\n**🚩 Matches taken place**: "@ + nat_decimal(c.played as nat) + "\n**🏁 Matches not yet happened**: "@ + nat_decimal(c.unplayed as nat) + "\n**💀 Inactive players**: "@ + nat_decimal(c.inactive as nat) + "\n"@)) by {
        lemma_concat_associative(("**Region: "@ + region_name(region) + " insight.**\n# Overall statistics:\n**👥 Players**: "@ + nat_decimal(c.players as nat) + "\n**⚽ Rounds**: "@ + nat_decimal(c.rounds as nat) + "\n# Round "@ + int_decimal(c.current_round as int) + " statistics:\n**⚔️ Matches**: "@ + nat_decimal(c.matches as nat) + "\n**👥 Players:**: "@ + nat_decimal(c.current_players as nat) + "\n**👋 Byes:**: "@ + nat_decimal(c.byes as nat) + " (Note: disqualifed player will be replaced by bye)\n**🏆 Advanced to next round**: "@ + nat_decimal(c.advanced as nat) + "\n**❌ Eliminated**: "@), (nat_decimal(c.eliminated as nat)), "\n**🚩 Matches taken place**: "@);
        lemma_concat_associative(("**Region: "@ + region_name(region) + " insight.**\n# Overall statistics:\n**👥 Players**: "@ + nat_decimal(c.players as nat) + "\n**⚽ Rounds**: "@ + nat_decimal(c.rounds as nat) + "\n# Round "@ + int_decimal(c.current_round as int) + " statistics:\n**⚔️ Matches**: "@ + nat_decimal(c.matches as nat) + "\n**👥 Players:**: "@ + nat_decimal(c.current_players as nat) + "\n**👋 Byes:**: "@ + nat_decimal(c.byes as nat) + " (Note: disqualifed player will be replaced by bye)\n**🏆 Advanced to next round**: "@ + nat_decimal(c.advanced as nat) + "\n**❌ Eliminated**: "@), (nat_decimal(c.eliminated as nat) + "\n**🚩 Matches taken place**: "@), nat_decimal(c.played as nat));
        lemma_concat_associative(("**Region: "@ + region_name(region) + " insight.**\n# Overall statistics:\n**👥 Players**: "@ + nat_decimal(c.players as nat) + "\n**⚽ Rounds**: "@ + nat_decimal(c.rounds as nat) + "\n# Round "@ + int_decimal(c.current_round as int) + " statistics:\n**⚔️ Matches**: "@ + nat_decimal(c.matches as nat) + "\n**👥 Players:**: "@ + nat_decimal(c.current_players as nat) + "\n**👋 Byes:**: "@ + nat_decimal(c.byes as nat) + " (Note: disqualifed player will be replaced by bye)\n**🏆 Advanced to next round**: "@ + nat_decimal(c.advanced as nat) + "\n**❌ Eliminated**: "@), (nat_decimal(c.eliminated as nat) + "\n**🚩 Matches taken place**: "@ + nat_decimal(c.played as nat)), "\n**🏁 Matches not yet happened**: "@);
        lemma_concat_associative(("**Region: "@ + region_name(region) + " insight.**\n# Overall statistics:\n**👥 Players**: "@ + nat_decimal(c.players as nat) + "\n**⚽ Rounds**: "@ + nat_decimal(c.rounds as nat) + "\n# Round "@ + int_decimal(c.current_round as int) + " statistics:\n**⚔️ Matches**: "@ + nat_decimal(c.matches as nat) + "\n**👥 Players:**: "@ + nat_decimal(c.current_players as nat) + "\n**👋 Byes:**: "@ + nat_decimal(c.byes as nat) + " (Note: disqualifed player will be replaced by bye)\n**🏆 Advanced to next round**: "@ + nat_decimal(c.advanced as nat) + "\n**❌ Eliminated**: "@), (nat_decimal(c.eliminated as nat) + "\n**🚩 Matches taken place**: "@ + nat_decimal(c.played as nat) + "\n**🏁 Matches not yet happened**: "@), nat_decimal(c.unplayed as nat));
        lemma_concat_associative(("**Region: "@ + region_name(region) + " insight.**\n# Overall statistics:\n**👥 Players**: "@ + nat_decimal(c.players as nat) + "\n**⚽ Rounds**: "@ + nat_decimal(c.rounds as nat) + "\n# Round "@ + int_decimal(c.current_round as int) + " statistics:\n**⚔️ Matches**: "@ + nat_decimal(c.matches as nat) + "\n**👥 Players:**: "@ + nat_decimal(c.current_players as nat) + "\n**👋 Byes:**: "@ + nat_decimal(c.byes as nat) + " (Note: disqualifed player will be replaced by bye)\n**🏆 Advanced to next round**: "@ + nat_decimal(c.advanced as nat) + "\n**❌ Eliminated**: "@), (nat_decimal(c.eliminated as nat) + "\n**🚩 Matches taken place**: "@ + nat_decimal(c.played as nat) + "\n**🏁 Matches not yet happened**: "@ + nat_decimal(c.unplayed as nat)), "\n**💀 Inactive players**: "@);
        lemma_concat_associative(("**Region: "@ + region_name(region) + " insight.**\n# Overall statistics:\n**👥 Players**: "@ + nat_decimal(c.players as nat) + "\n**⚽ Rounds**: "@ + nat_decimal(c.rounds as nat) + "\n# Round "@ + int_decimal(c.current_round as int) + " statistics:\n**⚔️ Matches**: "@ + nat_decimal(c.matches as nat) + "\n**👥 Players:**: "@ + nat_decimal(c.current_players as nat) + "\n**👋 Byes:**: "@ + nat_decimal(c.byes as nat) + " (Note: disqualifed player will be replaced by bye)\n**🏆 Advanced to next round**: "@ + nat_decimal(c.advanced as nat) + "\n**❌ Eliminated**: "@), (nat_decimal(c.eliminated as nat) + "\n**🚩 Matches taken place**: "@ + nat_decimal(c.played as nat) + "\n**🏁 Matches not yet happened**: "@ + nat_decimal(c.unplayed as nat) + "\n**💀 Inactive players**: "@), nat_decimal(c.inactive as nat));
        lemma_concat_associative(("**Region: "@ + region_name(region) + " insight.**\n# Overall statistics:\n**👥 Players**: "@ + nat_decimal(c.players as nat) + "\n**⚽ Rounds**: "@ + nat_decimal(c.rounds as nat) + "\n# Round "@ + int_decimal(c.current_round as int) + " statistics:\n**⚔️ Matches**: "@ + nat_decimal(c.matches as nat) + "\n**👥 Players:**: "@ + nat_decimal(c.current_players as nat) + "\n**👋 Byes:**: "@ + nat_decimal(c.byes as nat) + " (Note: disqualifed player will be replaced by bye)\n**🏆 Advanced to next round**: "@ + nat_decimal(c.advanced as nat) + "\n**❌ Eliminated**: "@), (nat_decimal(c.eliminated as nat) + "\n**🚩 Matches taken place**: "@ + nat_decimal(c.played as nat) + "\n**🏁 Matches not yet happened**: "@ + nat_decimal(c.unplayed as nat) + "\n**💀 Inactive players**: "@ + nat_decimal(c.inactive as nat)), "\n"@);
    }
    assert(report_text(region, c) == ("**Region: "@ + region_name(region) + " insight.**\n# Overall statistics:\n**👥 Players**: "@ + nat_decimal(c.players as nat) + "\n**⚽ Rounds**: "@ + nat_decimal(c.rounds as nat) + "\n# Round "@ + int_decimal(c.current_round as int) + " statistics:\n**⚔️ Matches**: "@ + nat_decimal(c.matches as nat) + "\n**👥 Players:**: "@ + nat_decimal(c.current_players as nat) + "\n**👋 Byes:**: "@ + nat_decimal(c.byes as nat)) + " (Note: disqualifed player will be replaced by bye)\n**🏆 Advanced to next round**: "@ + nat_decimal(c.advanced as nat) + "\n**❌ Eliminated**: "@ + (nat_decimal(c.eliminated as nat) + "\n**🚩 Matches taken place**: "@ + nat_decimal(c.played as nat) + "\n**🏁 Matches not yet happened**: "@ + nat_decimal(c.unplayed as nat) + "\n**💀 Inactive players**: "@ + nat_decimal(c.inactive as nat) + "\n"@));
    assert(report_text(region, c) == ("**Region: "@ + region_name(region) + " insight.**\n# Overall statistics:\n**👥 Players**: "@ + nat_decimal(c.players as nat) + "\n**⚽ Rounds**: "@ + nat_decimal(c.rounds as nat) + "\n# Round "@ + int_decimal(c.current_round as int) + " statistics:\n**⚔️ Matches**: "@ + nat_decimal(c.matches as nat) + "\n**👥 Players:**: "@ + nat_decimal(c.current_players as nat) + "\n**👋 Byes:**: "@ + nat_decimal(c.byes as nat) + " (Note: disqualifed player will be replaced by bye)\n**🏆 Advanced to next round**: "@ + nat_decimal(c.advanced as nat) + "\n**❌ Eliminated**: "@ + nat_decimal(c.eliminated as nat) + "\n**🚩 Matches taken place**: "@) + (nat_decimal(c.played as nat) + "\n**🏁 Matches not yet happened**: "@ + nat_decimal(c.unplayed as nat) + "\n**💀 Inactive players**: "@ + nat_decimal(c.inactive as nat) + "\n"@)) by {
        lemma_concat_associative(("**Region: "@ + region_name(region) + " insight.**\n# Overall statistics:\n**👥 Players**: "@ + nat_decimal(c.players as nat) + "\n**⚽ Rounds**: "@ + nat_decimal(c.rounds as nat) + "\n# Round "@ + int_decimal(c.current_round as int) + " statistics:\n**⚔️ Matches**: "@ + nat_decimal(c.matches as nat) + "\n**👥 Players:**: "@ + nat_decimal(c.current_players as nat) + "\n**👋 Byes:**: "@ + nat_decimal(c.byes as nat) + " (Note: disqualifed player will be replaced by bye)\n**🏆 Advanced to next round**: "@ + nat_decimal(c.advanced as nat) + "\n**❌ Eliminated**: "@ + nat_decimal(c.eliminated as nat) + "\n**🚩 Matches taken place**: "@), (nat_decimal(c.played as nat)), "\n**🏁 Matches not yet happened**: "@);
        lemma_concat_associative(("**Region: "@ + region_name(region) + " insight.**\n# Overall statistics:\n**👥 Players**: "@ + nat_decimal(c.players as nat) + "\n**⚽ Rounds**: "@ + nat_decimal(c.rounds as nat) + "\n# Round "@ + int_decimal(c.current_round as int) + " statistics:\n**⚔️ Matches**: "@ + nat_decimal(c.matches as nat) + "\n**👥 Players:**: "@ + nat_decimal(c.current_players as nat) + "\n**👋 Byes:**: "@ + nat_decimal(c.byes as nat) + " (Note: disqualifed player will be replaced by bye)\n**🏆 Advanced to next round**: "@ + nat_decimal(c.advanced as nat) + "\n**❌ Eliminated**: "@ + nat_decimal(c.eliminated as nat) + "\n**🚩 Matches taken place**: "@), (nat_decimal(c.played as nat) + "\n**🏁 Matches not yet happened**: "@), nat_decimal(c.unplayed as nat));
        lemma_concat_associative(("**Region: "@ + region_name(region) + " insight.**\n# Overall statistics:\n**👥 Players**: "@ + nat_decimal(c.players as nat) + "\n**⚽ Rounds**: "@ + nat_decimal(c.rounds as nat) + "\n# Round "@ + int_decimal(c.current_round as int) + " statistics:\n**⚔️ Matches**: "@ + nat_decimal(c.matches as nat) + "\n**👥 Players:**: "@ + nat_decimal(c.current_players as nat) + "\n**👋 Byes:**: "@ + nat_decimal(c.byes as nat) + " (Note: disqualifed player will be replaced by bye)\n**🏆 Advanced to next round**: "@ + nat_decimal(c.advanced as nat) + "\n**❌ Eliminated**: "@ + nat_decimal(c.eliminated as nat) + "\n**🚩 Matches taken place**: "@), (nat_decimal(c.played as nat) + "\n**🏁 Matches not yet happened**: "@ + nat_decimal(c.unplayed as nat)), "\n**💀 Inactive players**: "@);
        lemma_concat_associative(("**Region: "@ + region_name(region) + " insight.**\n# Overall statistics:\n**👥 Players**: "@ + nat_decimal(c.players as nat) + "\n**⚽ Rounds**: "@ + nat_decimal(c.rounds as nat) + "\n# Round "@ + int_decimal(c.current_round as int) + " statistics:\n**⚔️ Matches**: "@ + nat_decimal(c.matches as nat) + "\n**👥 Players:**: "@ + nat_decimal(c.current_players as nat) + "\n**👋 Byes:**: "@ + nat_decimal(c.byes as nat) + " (Note: disqualifed player will be replaced by bye)\n**🏆 Advanced to next round**: "@ + nat_decimal(c.advanced as nat) + "\n**❌ Eliminated**: "@ + nat_decimal(c.eliminated as nat) + "\n**🚩 Matches taken place**: "@), (nat_decimal(c.played as nat) + "\n**🏁 Matches not yet happened**: "@ + nat_decimal(c.unplayed as nat) + "\n**💀 Inactive players**: "@), nat_decimal(c.inactive as nat));
        lemma_concat_associative(("**Region: "@ + region_name(region) + " insight.**\n# Overall statistics:\n**👥 Players**: "@ + nat_decimal(c.players as nat) + "\n**⚽ Rounds**: "@ + nat_decimal(c.rounds as nat) + "\n# Round "@ + int_decimal(c.current_round as int) + " statistics:\n**⚔️ Matches**: "@ + nat_decimal(c.matches as nat) + "\n**👥 Players:**: "@ + nat_decimal(c.current_players as nat) + "\n**👋 Byes:**: "@ + nat_decimal(c.byes as nat) + " (Note: disqualifed player will be replaced by bye)\n**🏆 Advanced to next round**: "@ + nat_decimal(c.advanced as nat) + "\n**❌ Eliminated**: "@ + nat_decimal(c.eliminated as nat) + "\n**🚩 Matches taken place**: "@), (nat_decimal(c.played as nat) + "\n**🏁 Matches not yet happened**: "@ + nat_decimal(c.unplayed as nat) + "\n**💀 Inactive players**: "@ + nat_decimal(c.inactive as nat)), "\n"@);
    }
    assert(report_text(region, c) == ("**Region: "@ + region_name(region) + " insight.**\n# Overall statistics:\n**👥 Players**: "@ + nat_decimal(c.players as nat) + "\n**⚽ Rounds**: "@ + nat_decimal(c.rounds as nat) + "\n# Round "@ + int_decimal(c.current_round as int) + " statistics:\n**⚔️ Matches**: "@ + nat_decimal(c.matches as nat) + "\n**👥 Players:**: "@ + nat_decimal(c.current_players as nat) + "\n**👋 Byes:**: "@ + nat_decimal(c.byes as nat) + " (Note: disqualifed player will be replaced by bye)\n**🏆 Advanced to next round**: "@ + nat_decimal(c.advanced as nat)) + "\n**❌ Eliminated**: "@ + nat_decimal(c.eliminated as nat) + "\n**🚩 Matches taken place**: "@ + (nat_decimal(c.played as nat) + "\n**🏁 Matches not yet happened**: "@ + nat_decimal(c.unplayed as nat) + "\n**💀 Inactive players**: "@ + nat_decimal(c.inactive as nat) + "\n"@));
    assert(report_text(region, c) == ("**Region: "@ + region_name(region) + " insight.**\n# Overall statistics:\n**👥 Players**: "@ + nat_decimal(c.players as nat) + "\n**⚽ Rounds**: "@ + nat_decimal(c.rounds as nat) + "\n# Round "@ + int_decimal(c.current_round as int) + " statistics:\n**⚔️ Matches**: "@ + nat_decimal(c.matches as nat) + "\n**👥 Players:**: "@ + nat_decimal(c.current_players as nat) + "\n**👋 Byes:**: "@ + nat_decimal(c.byes as nat) + " (Note: disqualifed player will be replaced by bye)\n**🏆 Advanced to next round**: "@ + nat_decimal(c.advanced as nat) + "\n**❌ Eliminated**: "@ + nat_decimal(c.eliminated as nat) + "\n**🚩 Matches taken place**: "@ + nat_decimal(c.played as nat) + "\n**🏁 Matches not yet happened**: "@) + (nat_decimal(c.unplayed as nat) + "\n**💀 Inactive players**: "@ + nat_decimal(c.inactive as nat) + "\n"@)) by {
        lemma_concat_associative(("**Region: "@ + region_name(region) + " insight.**\n# Overall statistics:\n**👥 Players**: "@ + nat_decimal(c.players as nat) + "\n**⚽ Rounds**: "@ + nat_decimal(c.rounds as nat) + "\n# Round "@ + int_decimal(c.current_round as int) + " statistics:\n**⚔️ Matches**: "@ + nat_decimal(c.matches as nat) + "\n**👥 Players:**: "@ + nat_decimal(c.current_players as nat) + "\n**👋 Byes:**: "@ + nat_decimal(c.byes as nat) + " (Note: disqualifed player will be replaced by bye)\n**🏆 Advanced to next round**: "@ + nat_decimal(c.advanced as nat) + "\n**❌ Eliminated**: "@ + nat_decimal(c.eliminated as nat) + "\n**🚩 Matches taken place**: "@ + nat_decimal(c.played as nat) + "\n**🏁 Matches not yet happened**: "@), (nat_decimal(c.unplayed as nat)), "\n**💀 Inactive players**: "@);
        lemma_concat_associative(("**Region: "@ + region_name(region) + " insight.**\n# Overall statistics:\n**👥 Players**: "@ + nat_decimal(c.players as nat) + "\n**⚽ Rounds**: "@ + nat_decimal(c.rounds as nat) + "\n# Round "@ + int_decimal(c.current_round as int) + " statistics:\n**⚔️ Matches**: "@ + nat_decimal(c.matches as nat) + "\n**👥 Players:**: "@ + nat_decimal(c.current_players as nat) + "\n**👋 Byes:**: "@ + nat_decimal(c.byes as nat) + " (Note: disqualifed player will be replaced by bye)\n**🏆 Advanced to next round**: "@ + nat_decimal(c.advanced as nat) + "\n**❌ Eliminated**: "@ + nat_decimal(c.eliminated as nat) + "\n**🚩 Matches taken place**: "@ + nat_decimal(c.played as nat) + "\n**🏁 Matches not yet happened**: "@), (nat_decimal(c.unplayed as nat) + "\n**💀 Inactive players**: "@), nat_decimal(c.inactive as nat));
        lemma_concat_associative(("**Region: "@ + region_name(region) + " insight.**\n# Overall statistics:\n**👥 Players**: "@ + nat_decimal(c.players as nat) + "\n**⚽ Rounds**: "@ + nat_decimal(c.rounds as nat) + "\n# Round "@ + int_decimal(c.current_round as int) + " statistics:\n**⚔️ Matches**: "@ + nat_decimal(c.matches as nat) + "\n**👥 Players:**: "@ + nat_decimal(c.current_players as nat) + "\n**👋 Byes:**: "@ + nat_decimal(c.byes as nat) + " (Note: disqualifed player will be replaced by bye)\n**🏆 Advanced to next round**: "@ + nat_decimal(c.advanced as nat) + "\n**❌ Eliminated**: "@ + nat_decimal(c.eliminated as nat) + "\n**🚩 Matches taken place**: "@ + nat_decimal(c.played as nat) + "\n**🏁 Matches not yet happened**: "@), (nat_decimal(c.unplayed as nat) + "\n**💀 Inactive players**: "@ + nat_decimal(c.inactive as nat)), "\n"@);
    }
    assert(report_text(region, c) == ("**Region: "@ + region_name(region) + " insight.**\n# Overall statistics:\n**👥 Players**: "@ + nat_decimal(c.players as nat) + "\n**⚽ Rounds**: "@ + nat_decimal(c.rounds as nat) + "\n# Round "@ + int_decimal(c.current_round as int) + " statistics:\n**⚔️ Matches**: "@ + nat_decimal(c.matches as nat) + "\n**👥 Players:**: "@ + nat_decimal(c.current_players as nat) + "\n**👋 Byes:**: "@ + nat_decimal(c.byes as nat) + " (Note: disqualifed player will be replaced by bye)\n**🏆 Advanced to next round**: "@ + nat_decimal(c.advanced as nat) + "\n**❌ Eliminated**: "@ + nat_decimal(c.eliminated as nat)) + "\n**🚩 Matches taken place**: "@ + nat_decimal(c.played as nat) + "\n**🏁 Matches not yet happened**: "@ + (nat_decimal(c.unplayed as nat) + "\n**💀 Inactive players**: "@ + nat_decimal(c.inactive as nat) + "\n"@));
    assert(report_text(region, c) == ("**Region: "@ + region_name(region) + " insight.**\n# Overall statistics:\n**👥 Players**: "@ + nat_decimal(c.players as nat) + "\n**⚽ Rounds**: "@ + nat_decimal(c.rounds as nat) + "\n# Round "@ + int_decimal(c.current_round as int) + " statistics:\n**⚔️ Matches**: "@ + nat_decimal(c.matches as nat) + "\n**👥 Players:**: "@ + nat_decimal(c.current_players as nat) + "\n**👋 Byes:**: "@ + nat_decimal(c.byes as nat) + " (Note: disqualifed player will be replaced by bye)\n**🏆 Advanced to next round**: "@ + nat_decimal(c.advanced as nat) + "\n**❌ Eliminated**: "@ + nat_decimal(c.eliminated as nat) + "\n**🚩 Matches taken place**: "@ + nat_decimal(c.played as nat) + "\n**🏁 Matches not yet happened**: "@ + nat_decimal(c.unplayed as nat) + "\n**💀 Inactive players**: "@) + (nat_decimal(c.inactive as nat) + "\n"@)) by {
        lemma_concat_associative(("**Region: "@ + region_name(region) + " insight.**\n# Overall statistics:\n**👥 Players**: "@ + nat_decimal(c.players as nat) + "\n**⚽ Rounds**: "@ + nat_decimal(c.rounds as nat) + "\n# Round "@ + int_decimal(c.current_round as int) + " statistics:\n**⚔️ Matches**: "@ + nat_decimal(c.matches as nat) + "\n**👥 Players:**: "@ + nat_decimal(c.current_players as nat) + "\n**👋 Byes:**: "@ + nat_decimal(c.byes as nat) + " (Note: disqualifed player will be replaced by bye)\n**🏆 Advanced to next round**: "@ + nat_decimal(c.advanced as nat) + "\n**❌ Eliminated**: "@ + nat_decimal(c.eliminated as nat) + "\n**🚩 Matches taken place**: "@ + nat_decimal(c.played as nat) + "\n**🏁 Matches not yet happened**: "@ + nat_decimal(c.unplayed as nat) + "\n**💀 Inactive players**: "@), (nat_decimal(c.inactive as nat)), "\n"@);
    }
    assert(report_text(region, c) == ("**Region: "@ + region_name(region) + " insight.**\n# Overall statistics:\n**👥 Players**: "@ + nat_decimal(c.players as nat) + "\n**⚽ Rounds**: "@ + nat_decimal(c.rounds as nat) + "\n# Round "@ + int_decimal(c.current_round as int) + " statistics:\n**⚔️ Matches**: "@ + nat_decimal(c.matches as nat) + "\n**👥 Players:**: "@ + nat_decimal(c.current_players as nat) + "\n**👋 Byes:**: "@ + nat_decimal(c.byes as nat) + " (Note: disqualifed player will be replaced by bye)\n**🏆 Advanced to next round**: "@ + nat_decimal(c.advanced as nat) + "\n**❌ Eliminated**: "@ + nat_decimal(c.eliminated as nat) + "\n**🚩 Matches taken place**: "@ + nat_decimal(c.played as nat)) + "\n**🏁 Matches not yet happened**: "@ + nat_decimal(c.unplayed as nat) + "\n**💀 Inactive players**: "@ + (nat_decimal(c.inactive as nat) + "\n"@));
    assert(report_text(region, c) == ("**Region: "@ + region_name(region) + " insight.**\n# Overall statistics:\n**👥 Players**: "@ + nat_decimal(c.players as nat) + "\n**⚽ Rounds**: "@ + nat_decimal(c.rounds as nat) + "\n# Round "@ + int_decimal(c.current_round as int) + " statistics:\n**⚔️ Matches**: "@ + nat_decimal(c.matches as nat) + "\n**👥 Players:**: "@ + nat_decimal(c.current_players as nat) + "\n**👋 Byes:**: "@ + nat_decimal(c.byes as nat) + " (Note: disqualifed player will be replaced by bye)\n**🏆 Advanced to next round**: "@ + nat_decimal(c.advanced as nat) + "\n**❌ Eliminated**: "@ + nat_decimal(c.eliminated as nat) + "\n**🚩 Matches taken place**: "@ + nat_decimal(c.played as nat) + "\n**🏁 Matches not yet happened**: "@ + nat_decimal(c.unplayed as nat)) + "\n**💀 Inactive players**: "@ + nat_decimal(c.inactive as nat) + "\n"@);
}

} // verus!

use crate::text::{int_decimal, push_signed_decimal};
use vstd::prelude::*;
use vstd::string::*;

verus! {

/// The briefing a player gets for a match: the round and match number, the two
/// players, the mode and the map, and the rules of the match.
pub open spec fn brief_text(
    round: i32,
    match_id: i32,
    player_id: Seq<char>,
    enemy_id: Seq<char>,
    mode: Seq<char>,
    map: Seq<char>,
) -> Seq<char> {
    "# Round "@
        + int_decimal(round as int) + " - Match "@
        + int_decimal(match_id as int) + "\n**<@"@
        + player_id + "> vs. <@"@
        + enemy_id + ">**\n**🗣️ Before you start:**\nPlan with your opponent to schedule at least 2 CONSECUTIVE battles.\n**⚙️ During the battle:**\n- 🧑‍🤝‍🧑 Set up a friendly room.\n## ⚔️ Mode: "@
        + mode + ".\n- 🗺️ Map: "@
        + map + ".\n## 🤖 Turn OFF all bots.\n**🗒️ After the battle:**\n- Wait for 30s. \n- Run this bot again to submit the result.\n**⚠️ Note:**\n- Only the MOST RECENT determinable number of matches with the opponent is considered once you submit your results.\n- Due to limitations, only up to 25 battles are viewable, so please submit the result as soon as possible!\n# Remember this is FIRST TO 2 WINS tournament!"@
}

/// The map shown in a briefing: the configured one, or `Any` where none is set.
pub open spec fn brief_map(map: Option<Seq<char>>) -> Seq<char> {
    match map {
        Some(m) => m,
        None => "Any"@,
    }
}

/// Writes the briefing of a match (see `brief_text`); `map` is `Any` where the
/// configuration sets none.
pub fn match_brief(
    round: i32,
    match_id: i32,
    player_id: &str,
    enemy_id: &str,
    mode: &str,
    map: Option<&str>,
) -> (r: String)
    ensures
        r@ == brief_text(
            round,
            match_id,
            player_id@,
            enemy_id@,
            mode@,
            brief_map(
                match map {
                    Some(m) => Some(m@),
                    None => None,
                },
            ),
        ),
{
    let map = match map {
        Some(m) => m,
        None => "Any",
    };
    let mut s = String::from_str("# Round ");
    push_signed_decimal(&mut s, round as i64);
    s.append(" - Match ");
    push_signed_decimal(&mut s, match_id as i64);
    s.append("\n**<@");
    s.append(player_id);
    s.append("> vs. <@");
    s.append(enemy_id);
    s.append(">**\n**🗣️ Before you start:**\nPlan with your opponent to schedule at least 2 CONSECUTIVE battles.\n**⚙️ During the battle:**\n- 🧑‍🤝‍🧑 Set up a friendly room.\n## ⚔️ Mode: ");
    s.append(mode);
    s.append(".\n- 🗺️ Map: ");
    s.append(map);
    s.append(".\n## 🤖 Turn OFF all bots.\n**🗒️ After the battle:**\n- Wait for 30s. \n- Run this bot again to submit the result.\n**⚠️ Note:**\n- Only the MOST RECENT determinable number of matches with the opponent is considered once you submit your results.\n- Due to limitations, only up to 25 battles are viewable, so please submit the result as soon as possible!\n# Remember this is FIRST TO 2 WINS tournament!");
    assert(s@ =~= brief_text(round, match_id, player_id@, enemy_id@, mode@, map@));
    s
}

} // verus!

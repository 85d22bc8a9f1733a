use vstd::prelude::*;
use vstd::string::*;
use crate::text::same_text;

verus! {

/// `Open` for an open phase, `Closed` otherwise.
pub fn term(status: bool) -> (r: String)
    ensures
        r@ == (if status {
            "Open"@
        } else {
            "Closed"@
        }),
{
    if status {
        String::from_str("Open")
    } else {
        String::from_str("Closed")
    }
}

/// The player shown after a button press in the detail view, which counts players
/// from 1 to `total`: `next` goes forward and `previous` back, wrapping around at the
/// ends; other buttons change nothing.
pub open spec fn detail_next_index(index: int, total: int, custom_id: Seq<char>) -> Option<int> {
    if custom_id == "next"@ {
        Some(
            if index == total {
                1
            } else {
                index + 1
            },
        )
    } else if custom_id == "previous"@ {
        Some(
            if index == 1 {
                total
            } else {
                index - 1
            },
        )
    } else {
        None
    }
}

/// The next position of the detail view after the button `custom_id` is pressed
/// (see `detail_next_index`); `None` for a button that is not one of the two.
pub fn detail_step(index: i32, total: i32, custom_id: &str) -> (r: Option<i32>)
    requires
        1 <= index <= total,
    ensures
        r matches Some(i) ==> 1 <= i <= total,
        match r {
            Some(i) => detail_next_index(index as int, total as int, custom_id@) == Some(i as int),
            None => detail_next_index(index as int, total as int, custom_id@) is None,
        },
{
    if same_text(custom_id, "next") {
        Some(
            if index == total {
                1
            } else {
                index + 1
            },
        )
    } else if same_text(custom_id, "previous") {
        Some(
            if index == 1 {
                total
            } else {
                index - 1
            },
        )
    } else {
        None
    }
}

/// A law of the detail view: `previous` undoes `next`, and `next` undoes `previous`.
pub proof fn lemma_detail_steps_undo(index: int, total: int)
    requires
        1 <= index <= total,
    ensures
        detail_next_index(index, total, "next"@) matches Some(j) && detail_next_index(
            j,
            total,
            "previous"@,
        ) == Some(index),
        detail_next_index(index, total, "previous"@) matches Some(j) && detail_next_index(
            j,
            total,
            "next"@,
        ) == Some(index),
{
    reveal_strlit("next");
    reveal_strlit("previous");
    assert("next"@.len() != "previous"@.len());
}

} // verus!

verus! {

/// The state of registration shown on the registration panel.
#[derive(Debug, Clone, Copy, PartialEq, Eq, Structural)]
pub struct Reg {
    pub registration: bool,
    pub tournament: bool,
    pub count: i32,
    pub region: crate::region::Region,
}

/// The text of the registration panel: whether registration is open, how many players
/// registered, a notice while the tournament runs, and the options.
pub open spec fn panel_text(reg: Reg) -> Seq<char> {
    "Registration is currently: "@ + (if reg.registration {
        "Open"@
    } else {
        "Closed"@
    }) + "\nThere are "@ + crate::text::int_decimal(reg.count as int)
        + " registered players for the tournament of "@ + crate::region::region_name(reg.region)
        + "."@ + (if reg.tournament {
        "\nNotice: Tournament is currently running. Toggle is disabled!"@
    } else {
        ""@
    })
        + "\nBelow are options:\n🔒: Toggle registration\n- Open/Close registration phase for players.\n- This will be disabled during the tournament phase.\n🔍: View\n- Lets you see all players who has already registered in the tournament\n"@
}

/// Writes the text of the registration panel (see `panel_text`).
pub fn registration_panel(reg: &Reg) -> (r: String)
    ensures
        r@ == panel_text(*reg),
{
    let mut s = String::from_str("Registration is currently: ");
    let t = term(reg.registration);
    s.append(t.as_str());
    s.append("\nThere are ");
    crate::text::push_signed_decimal(&mut s, reg.count as i64);
    s.append(" registered players for the tournament of ");
    let name = reg.region.full();
    s.append(name.as_str());
    s.append(".");
    s.append(
        if reg.tournament {
            "\nNotice: Tournament is currently running. Toggle is disabled!"
        } else {
            ""
        },
    );
    s.append(
        "\nBelow are options:\n🔒: Toggle registration\n- Open/Close registration phase for players.\n- This will be disabled during the tournament phase.\n🔍: View\n- Lets you see all players who has already registered in the tournament\n",
    );
    assert(s@ =~= panel_text(*reg));
    s
}

/// What the detail view shows of a registered player.
pub struct PlayerCard {
    pub title: String,
    pub description: String,
    pub discord: String,
    pub match_text: String,
    pub battle: String,
    pub footer: String,
}

/// The detail view of player `index` of `total` in `round` of `region`: its name (or
/// `Unknown player`) and tag, Discord mention, match (or `Not yet assigned`) and whether
/// the player has played.
pub fn player_card(
    round: &str,
    region: crate::region::Region,
    name: Option<&str>,
    tag: &str,
    discord_id: &str,
    match_id: Option<i32>,
    battle: bool,
    index: i32,
    total: i32,
) -> (r: PlayerCard)
    ensures
        r.title@ == "Round "@ + round@ + " - DBC Tournament Region "@ + crate::region::region_name(region),
        r.description@ == "Player **"@ + (match name {
            Some(n) => n@,
            None => "Unknown player"@,
        }) + " ("@ + tag@ + ")**'s info"@,
        r.discord@ == "<@"@ + discord_id@ + ">"@,
        r.match_text@ == match match_id {
            Some(m) => crate::text::int_decimal(m as int),
            None => "Not yet assigned"@,
        },
        r.battle@ == if battle {
            "Already played"@
        } else {
            "Not yet played"@
        },
        r.footer@ == crate::text::int_decimal(index as int) + " out of "@ + crate::text::int_decimal(
            total as int,
        ) + " players."@,
{
    let mut title = String::from_str("Round ");
    title.append(round);
    title.append(" - DBC Tournament Region ");
    let full = region.full();
    title.append(full.as_str());
    let mut description = String::from_str("Player **");
    description.append(
        match name {
            Some(n) => n,
            None => "Unknown player",
        },
    );
    description.append(" (");
    description.append(tag);
    description.append(")**'s info");
    let mut discord = String::from_str("<@");
    discord.append(discord_id);
    discord.append(">");
    let match_text = match match_id {
        Some(m) => {
            let mut s = String::new();
            crate::text::push_signed_decimal(&mut s, m as i64);
            s
        },
        None => String::from_str("Not yet assigned"),
    };
    let battle_text = String::from_str(if battle { "Already played" } else { "Not yet played" });
    let mut footer = String::new();
    crate::text::push_signed_decimal(&mut footer, index as i64);
    footer.append(" out of ");
    crate::text::push_signed_decimal(&mut footer, total as i64);
    footer.append(" players.");
    PlayerCard { title, description, discord, match_text, battle: battle_text, footer }
}

} // verus!

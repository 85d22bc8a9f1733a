use crate::quote::{strip_quotes, QuoteStripper};
use crate::text::same_text;
use vstd::prelude::*;
use vstd::string::*;

verus! {

/// The Brawl Stars API address for a player's profile (`player`) or battle log
/// (`battle_log`), the tag's `#` written as `%23`.
pub open spec fn api_link(option: Seq<char>, tag: Seq<char>) -> Seq<char> {
    if option == "player"@ {
        "https://bsproxy.royaleapi.dev/v1/players/%23"@ + tag
    } else {
        "https://bsproxy.royaleapi.dev/v1/players/%23"@ + tag + "/battlelog"@
    }
}

/// Makes the API address (see `api_link`).
pub fn get_api_link(option: &str, tag: &str) -> (r: String)
    requires
        option@ == "player"@ || option@ == "battle_log"@,
    ensures
        r@ == api_link(option@, tag@),
{
    let mut s = String::from_str("https://bsproxy.royaleapi.dev/v1/players/%23");
    s.append(tag);
    if !same_text(option, "player") {
        s.append("/battlelog");
    }
    s
}

/// The icon of a game mode by its API name, as written in the battle log; nothing for a
/// name not known.
pub open spec fn battle_mode_icon(name: Seq<char>) -> Option<Seq<char>> {
    if name == "brawlBall"@ {
        Some("https://cdn.brawlstats.com/event-icons/event_mode_brawl_ball.png"@)
    } else if name == "bounty"@ {
        Some("https://cdn.brawlstats.com/event-icons/event_mode_bounty.png"@)
    } else if name == "gemGrab"@ {
        Some("https://cdn.brawlstats.com/event-icons/event_mode_gem_grab.png"@)
    } else if name == "wipeout"@ {
        Some("https://cdn.brawlstats.com/event-icons/event_mode_wipe_out.png"@)
    } else if name == "heist"@ {
        Some("https://cdn.brawlstats.com/event-icons/event_mode_heist.png"@)
    } else if name == "hotZone"@ {
        Some("https://cdn.brawlstats.com/event-icons/event_mode_hot_zone.png"@)
    } else if name == "knockout"@ {
        Some("https://cdn.brawlstats.com/event-icons/event_mode_knockout.png"@)
    } else if name == "siege"@ {
        Some("https://cdn.brawlstats.com/event-icons/event_mode_siege.png"@)
    } else if name == "soloShowdown"@ {
        Some("https://cdn.brawlstats.com/event-icons/event_mode_solo_showdown.png"@)
    } else if name == "duoShowdown"@ {
        Some("https://cdn.brawlstats.com/event-icons/event_mode_duo_showdown.png"@)
    } else {
        None
    }
}

/// The icon of the game mode named by a JSON value, given as its JSON text (a string
/// value keeps its quotes there); the quotes are removed before the name is looked up,
/// and an unknown name gives `None`.
pub fn get_mode_icon(event_name: String) -> (r: Option<&'static str>)
    ensures
        match r {
            Some(u) => battle_mode_icon(strip_quotes(event_name@)) == Some(u@),
            None => battle_mode_icon(strip_quotes(event_name@)) is None,
        },
{
    let binding = event_name.strip_quote();
    let name = binding.as_str();
    if same_text(name, "brawlBall") {
        Some("https://cdn.brawlstats.com/event-icons/event_mode_brawl_ball.png")
    } else if same_text(name, "bounty") {
        Some("https://cdn.brawlstats.com/event-icons/event_mode_bounty.png")
    } else if same_text(name, "gemGrab") {
        Some("https://cdn.brawlstats.com/event-icons/event_mode_gem_grab.png")
    } else if same_text(name, "wipeout") {
        Some("https://cdn.brawlstats.com/event-icons/event_mode_wipe_out.png")
    } else if same_text(name, "heist") {
        Some("https://cdn.brawlstats.com/event-icons/event_mode_heist.png")
    } else if same_text(name, "hotZone") {
        Some("https://cdn.brawlstats.com/event-icons/event_mode_hot_zone.png")
    } else if same_text(name, "knockout") {
        Some("https://cdn.brawlstats.com/event-icons/event_mode_knockout.png")
    } else if same_text(name, "siege") {
        Some("https://cdn.brawlstats.com/event-icons/event_mode_siege.png")
    } else if same_text(name, "soloShowdown") {
        Some("https://cdn.brawlstats.com/event-icons/event_mode_solo_showdown.png")
    } else if same_text(name, "duoShowdown") {
        Some("https://cdn.brawlstats.com/event-icons/event_mode_duo_showdown.png")
    } else {
        None
    }
}

} // verus!

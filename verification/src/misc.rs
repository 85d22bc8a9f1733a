use crate::text::same_text;
pub use crate::quote::QuoteStripper;
pub use crate::time::Time;
use poise::serenity_prelude::Colour;
use vstd::prelude::*;
use vstd::string::*;

verus! {

/// The name of a Robo Rumble difficulty level (0 to 20), or the note for a level beyond them.
pub open spec fn difficulty_label(level: int) -> Seq<char> {
    if level == 0 {
        "Easy"@
    } else if level == 1 {
        "Normal"@
    } else if level == 2 {
        "Hard"@
    } else if level == 3 {
        "Expert"@
    } else if level == 4 {
        "Master"@
    } else if level == 5 {
        "Insane"@
    } else if level == 6 {
        "Insane II"@
    } else if level == 7 {
        "Insane III"@
    } else if level == 8 {
        "Insane IV"@
    } else if level == 9 {
        "Insane V"@
    } else if level == 10 {
        "Insane VI"@
    } else if level == 11 {
        "Insane VII"@
    } else if level == 12 {
        "Insane VIII"@
    } else if level == 13 {
        "Insane IX"@
    } else if level == 14 {
        "Insane X"@
    } else if level == 15 {
        "Insane XI"@
    } else if level == 16 {
        "Insane XII"@
    } else if level == 17 {
        "Insane XIII"@
    } else if level == 18 {
        "Insane XIV"@
    } else if level == 19 {
        "Insane XV"@
    } else if level == 20 {
        "Insane XVI"@
    } else {
        "Congratulations, either we were wrong, or you unlocked new difficulty"@
    }
}

/// The name of a difficulty level, as the player profile shows it.
pub fn get_difficulty(level: i32) -> (r: String)
    ensures
        r@ == difficulty_label(level as int),
{
    let s = if level == 0 {
        "Easy"
    } else if level == 1 {
        "Normal"
    } else if level == 2 {
        "Hard"
    } else if level == 3 {
        "Expert"
    } else if level == 4 {
        "Master"
    } else if level == 5 {
        "Insane"
    } else if level == 6 {
        "Insane II"
    } else if level == 7 {
        "Insane III"
    } else if level == 8 {
        "Insane IV"
    } else if level == 9 {
        "Insane V"
    } else if level == 10 {
        "Insane VI"
    } else if level == 11 {
        "Insane VII"
    } else if level == 12 {
        "Insane VIII"
    } else if level == 13 {
        "Insane IX"
    } else if level == 14 {
        "Insane X"
    } else if level == 15 {
        "Insane XI"
    } else if level == 16 {
        "Insane XII"
    } else if level == 17 {
        "Insane XIII"
    } else if level == 18 {
        "Insane XIV"
    } else if level == 19 {
        "Insane XV"
    } else if level == 20 {
        "Insane XVI"
    } else {
        "Congratulations, either we were wrong, or you unlocked new difficulty"
    };
    String::from_str(s)
}

/// The icon of a game mode by its API name; nothing for a name not known.
pub open spec fn mode_icon_url(name: Seq<char>) -> Option<Seq<char>> {
    if name == "brawlBall"@ {
        Some("https://cdn.brawlstats.com/event-icons/event_mode_brawl_ball.png"@)
    } else if name == "bounty"@ {
        Some("https://cdn.brawlstats.com/event-icons/event_mode_bounty.png"@)
    } else if name == "gemGrab"@ {
        Some("https://cdn.brawlstats.com/event-icons/event_mode_gem_grab.png"@)
    } else if name == "wipeout"@ {
        Some("https://cdn.brawlstats.com/event-icons/event_mode_wipeout.png"@)
    } else if name == "heist"@ {
        Some("https://cdn.brawlstats.com/event-icons/event_mode_heist.png"@)
    } else if name == "hotZone"@ {
        Some("https://cdn.brawlstats.com/event-icons/event_mode_hot_zone.png"@)
    } else if name == "knockout"@ {
        Some("https://cdn.brawlstats.com/event-icons/event_mode_knockout.png"@)
    } else if name == "siege"@ {
        Some("https://cdn.brawlstats.com/event-icons/event_mode_siege.png"@)
    } else if name == "raid"@ {
        Some("https://cdn.brawlstats.com/event-icons/event_mode_raid.png"@)
    } else if name == "soloShowdown"@ {
        Some("https://cdn.brawlstats.com/event-icons/event_mode_showdown.png"@)
    } else if name == "duoShowdown"@ {
        Some("https://cdn.brawlstats.com/event-icons/event_mode_showdown.png"@)
    } else {
        None
    }
}

/// The address of the icon of a game mode (see `mode_icon_url`); `None` for an event name
/// that is not known.
pub fn get_mode_icon(event_name: String) -> (r: Option<String>)
    ensures
        match r {
            Some(u) => mode_icon_url(event_name@) == Some(u@),
            None => mode_icon_url(event_name@) is None,
        },
{
    let name = event_name.as_str();
    let url = if same_text(name, "brawlBall") {
        "https://cdn.brawlstats.com/event-icons/event_mode_brawl_ball.png"
    } else if same_text(name, "bounty") {
        "https://cdn.brawlstats.com/event-icons/event_mode_bounty.png"
    } else if same_text(name, "gemGrab") {
        "https://cdn.brawlstats.com/event-icons/event_mode_gem_grab.png"
    } else if same_text(name, "wipeout") {
        "https://cdn.brawlstats.com/event-icons/event_mode_wipeout.png"
    } else if same_text(name, "heist") {
        "https://cdn.brawlstats.com/event-icons/event_mode_heist.png"
    } else if same_text(name, "hotZone") {
        "https://cdn.brawlstats.com/event-icons/event_mode_hot_zone.png"
    } else if same_text(name, "knockout") {
        "https://cdn.brawlstats.com/event-icons/event_mode_knockout.png"
    } else if same_text(name, "siege") {
        "https://cdn.brawlstats.com/event-icons/event_mode_siege.png"
    } else if same_text(name, "raid") {
        "https://cdn.brawlstats.com/event-icons/event_mode_raid.png"
    } else if same_text(name, "soloShowdown") {
        "https://cdn.brawlstats.com/event-icons/event_mode_showdown.png"
    } else if same_text(name, "duoShowdown") {
        "https://cdn.brawlstats.com/event-icons/event_mode_showdown.png"
    } else {
        return None;
    };
    Some(String::from_str(url))
}

/// The address of a player's profile icon by its number.
pub open spec fn player_icon_url(icon_id: Seq<char>) -> Seq<char> {
    "https://cdn-old.brawlify.com/profile-low/"@ + icon_id + ".png"@
}

/// The address of a player's profile icon (see `player_icon_url`).
pub fn get_player_icon_url(icon_id: String) -> (r: String)
    ensures
        r@ == player_icon_url(icon_id@),
{
    let mut s = String::from_str("https://cdn-old.brawlify.com/profile-low/");
    s.append(icon_id.as_str());
    s.append(".png");
    s
}

/// Which icon address to make: a player's or a game mode's.
#[derive(Debug, Clone, Copy, PartialEq, Eq, Structural)]
pub enum IconKind {
    Player,
    Mode,
}

impl IconKind {
    /// The icon address of this kind for `arg`; nothing for an unknown mode.
    pub open spec fn url(self, arg: Seq<char>) -> Option<Seq<char>> {
        match self {
            IconKind::Player => Some(player_icon_url(arg)),
            IconKind::Mode => mode_icon_url(arg),
        }
    }

    /// Makes the icon address of this kind for `arg` (see `url`).
    pub fn call(&self, arg: String) -> (r: Option<String>)
        ensures
            match r {
                Some(u) => self.url(arg@) == Some(u@),
                None => self.url(arg@) is None,
            },
    {
        match self {
            IconKind::Player => Some(get_player_icon_url(arg)),
            IconKind::Mode => get_mode_icon(arg),
        }
    }
}

/// The maker of icon addresses named by `icon`: `player` or `mode`.
pub fn get_icon(icon: &str) -> (r: IconKind)
    requires
        icon@ == "player"@ || icon@ == "mode"@,
    ensures
        icon@ == "player"@ ==> r == IconKind::Player,
        icon@ != "player"@ ==> r == IconKind::Mode,
{
    if same_text(icon, "player") {
        IconKind::Player
    } else {
        IconKind::Mode
    }
}

#[verifier::external_type_specification]
#[verifier::external_body]
pub struct ExColour(poise::serenity_prelude::Colour);

/// What `Colour::new` gives for a `0xRRGGBB` value.
pub uninterp spec fn colour_new(value: u32) -> Colour;

/// `Colour::new` of serenity (through poise): the colour whose value is `value`.
/// Claimed: the colour depends on the value alone.
#[verifier::external_body]
fn new_colour(value: u32) -> (r: Colour)
    ensures
        r == colour_new(value),
{
    Colour::new(value)
}

/// The embed colour value for the result of a battle: green (`0x00800`) for a victory, red
/// for a defeat, white for a draw, black otherwise.
pub open spec fn result_colour_value(result: Seq<char>) -> u32 {
    if result == "victory"@ {
        0x00800
    } else if result == "defeat"@ {
        0xFF0000
    } else if result == "draw"@ {
        0xFFFFFF
    } else {
        0
    }
}

/// The value of the embed colour for the result of a battle (see `result_colour_value`).
pub fn result_colour(result: &str) -> (r: u32)
    ensures
        r == result_colour_value(result@),
{
    if same_text(result, "victory") {
        0x00800
    } else if same_text(result, "defeat") {
        0xFF0000
    } else if same_text(result, "draw") {
        0xFFFFFF
    } else {
        0
    }
}

/// The embed colour for the result of a battle (see `result_colour_value`).
pub fn get_color(result: String) -> (r: Colour)
    ensures
        r == colour_new(result_colour_value(result@)),
{
    new_colour(result_colour(result.as_str()))
}

/// An error of the bot, carrying its message.
pub struct CustomError(pub String);

impl CustomError {
    /// The error as it is shown: `CustomError: ` and the message.
    pub fn to_string(&self) -> (r: String)
        ensures
            r@ == "CustomError: "@ + self.0@,
    {
        let mut s = String::from_str("CustomError: ");
        s.append(self.0.as_str());
        s
    }
}

/// A value of a stored document, as far as the bot reads it.
pub enum BsonValue {
    Null,
    Bool(bool),
    Int32(i32),
    Int64(i64),
    String(String),
    Other,
}

impl BsonValue {
    /// The value as a `u32`: an integer from 0 to `u32::MAX`, and nothing otherwise.
    pub fn as_u32(&self) -> (r: Option<u32>)
        ensures
            r == match self {
                BsonValue::Int32(v) => if *v >= 0 {
                    Some(*v as u32)
                } else {
                    None
                },
                BsonValue::Int64(v) => if 0 <= *v <= u32::MAX {
                    Some(*v as u32)
                } else {
                    None
                },
                _ => None::<u32>,
            },
    {
        match self {
            BsonValue::Int32(value) => {
                if *value >= 0 {
                    Some(*value as u32)
                } else {
                    None
                }
            },
            BsonValue::Int64(value) => {
                if *value >= 0 && *value <= u32::MAX as i64 {
                    Some(*value as u32)
                } else {
                    None
                }
            },
            _ => None,
        }
    }
}

/// The name of a round of the tournament: `Players` before the first, `Round n` after.
pub open spec fn round_name(round: i32) -> Seq<char> {
    if round == 0 {
        "Players"@
    } else {
        "Round "@ + crate::text::int_decimal(round as int)
    }
}

/// The name of the current round from the configuration's `round` value, an integer.
pub fn get_round(round: &BsonValue) -> (r: String)
    requires
        round is Int32,
    ensures
        r@ == round_name(round->Int32_0),
{
    match round {
        BsonValue::Int32(n) => {
            if *n == 0 {
                String::from_str("Players")
            } else {
                let mut s = String::from_str("Round ");
                crate::text::push_signed_decimal(&mut s, *n as i64);
                s
            }
        },
        _ => String::new(),
    }
}

/// The collection that holds the players of the current round: `Player` before the
/// first round, `Round n` after.
pub open spec fn round_collection_name(round: i32) -> Seq<char> {
    if round == 0 {
        "Player"@
    } else {
        "Round "@ + crate::text::int_decimal(round as int)
    }
}

/// The collection of the current round, from the configuration's `round` value, an integer.
pub fn round_collection(round: &BsonValue) -> (r: String)
    requires
        round is Int32,
    ensures
        r@ == round_collection_name(round->Int32_0),
{
    match round {
        BsonValue::Int32(n) => {
            if *n == 0 {
                String::from_str("Player")
            } else {
                let mut s = String::from_str("Round ");
                crate::text::push_signed_decimal(&mut s, *n as i64);
                s
            }
        },
        _ => String::new(),
    }
}

/// Whether an opponent is the stand-in of a bye: its `tag` is null.
pub fn is_mannequin(tag: &BsonValue) -> (r: bool)
    ensures
        r == (*tag is Null),
{
    match tag {
        BsonValue::Null => true,
        _ => false,
    }
}

/// The tag as it is stored: one `#` in front of the tag without its own leading `#`.
pub open spec fn stored_tag(tag: Seq<char>) -> Seq<char> {
    if tag.len() > 0 && tag[0] == '#' {
        tag
    } else {
        seq!['#'] + tag
    }
}

/// Writes a tag as it is stored (see `stored_tag`).
pub fn proper_tag(tag: &str) -> (r: String)
    ensures
        r@ == stored_tag(tag@),
{
    let n = tag.unicode_len();
    if n > 0 && tag.get_char(0) == '#' {
        String::from_str(tag)
    } else {
        let mut s = String::from_str("#");
        s.append(tag);
        proof {
            reveal_strlit("#");
        }
        assert(s@ =~= seq!['#'] + tag@);
        s
    }
}

} // verus!

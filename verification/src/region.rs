use vstd::prelude::*;
use crate::misc::BsonValue;
use crate::text::{eq_ignore_ascii_case, same_text, text_eq_ignore_ascii_case};

verus! {

/// A geographical region of the tournament.
#[derive(Debug, Clone, Copy, PartialEq, Eq, Hash, Structural)]
pub enum Region {
    /// North America & South America
    NASA,
    /// Europe
    EU,
    /// Asia & Oceania
    APAC,
}

/// The key of a region, as `find_key` reads it and `short` writes it.
pub open spec fn region_key(r: Region) -> Seq<char> {
    match r {
        Region::NASA => "NASA"@,
        Region::EU => "EU"@,
        Region::APAC => "APAC"@,
    }
}

/// The full display name of a region.
pub open spec fn region_name(r: Region) -> Seq<char> {
    match r {
        Region::NASA => "North America & South America"@,
        Region::EU => "Europe"@,
        Region::APAC => "Asia & Oceania"@,
    }
}

/// The globe emoji of a region.
pub open spec fn region_emoji(r: Region) -> Seq<char> {
    match r {
        Region::NASA => "🌎"@,
        Region::EU => "🌍"@,
        Region::APAC => "🌏"@,
    }
}

/// The region whose key is `name`, if there is one.
pub open spec fn region_of_key(name: Seq<char>) -> Option<Region> {
    if name == "NASA"@ {
        Some(Region::NASA)
    } else if name == "EU"@ {
        Some(Region::EU)
    } else if name == "APAC"@ {
        Some(Region::APAC)
    } else {
        None
    }
}

/// The region whose full name is `name` when ASCII case is ignored, if there is one.
pub open spec fn region_of_name(name: Seq<char>) -> Option<Region> {
    if eq_ignore_ascii_case(name, "North America & South America"@) {
        Some(Region::NASA)
    } else if eq_ignore_ascii_case(name, "Europe"@) {
        Some(Region::EU)
    } else if eq_ignore_ascii_case(name, "Asia & Oceania"@) {
        Some(Region::APAC)
    } else {
        None
    }
}

impl Region {
    /// The region named by its key: `NASA`, `EU` or `APAC`.
    pub fn find_key(name: &str) -> (r: Option<Region>)
        ensures
            r == region_of_key(name@),
    {
        if same_text(name, "NASA") {
            Some(Region::NASA)
        } else if same_text(name, "EU") {
            Some(Region::EU)
        } else if same_text(name, "APAC") {
            Some(Region::APAC)
        } else {
            None
        }
    }

    /// The region named by its full name, ASCII case ignored, as a choice of the
    /// slash commands is read.
    pub fn from_name(name: &str) -> (r: Option<Region>)
        ensures
            r == region_of_name(name@),
    {
        if text_eq_ignore_ascii_case(name, "North America & South America") {
            Some(Region::NASA)
        } else if text_eq_ignore_ascii_case(name, "Europe") {
            Some(Region::EU)
        } else if text_eq_ignore_ascii_case(name, "Asia & Oceania") {
            Some(Region::APAC)
        } else {
            None
        }
    }

    /// The region stored as a text value, by its full name; nothing for a value of another kind.
    pub fn from_bson(bson: &BsonValue) -> (r: Option<Region>)
        requires
            bson matches BsonValue::String(s) ==> region_of_name(s@) is Some,
        ensures
            r == match bson {
                BsonValue::String(s) => region_of_name(s@),
                _ => None,
            },
    {
        match bson {
            BsonValue::String(s) => Self::from_name(s.as_str()),
            _ => None,
        }
    }

    /// The short name of the region, e.g. `NASA`, `EU`, `APAC`.
    pub fn short(&self) -> (r: String)
        ensures
            r@ == region_key(*self),
    {
        match self {
            Region::NASA => String::from_str("NASA"),
            Region::EU => String::from_str("EU"),
            Region::APAC => String::from_str("APAC"),
        }
    }

    /// The full name of the region, e.g. `North America & South America`, `Europe`, `Asia & Oceania`.
    pub fn full(&self) -> (r: String)
        ensures
            r@ == region_name(*self),
    {
        match self {
            Region::NASA => String::from_str("North America & South America"),
            Region::EU => String::from_str("Europe"),
            Region::APAC => String::from_str("Asia & Oceania"),
        }
    }

    /// The globe emoji that stands for the region.
    pub fn get_emoji(&self) -> (r: String)
        ensures
            r@ == region_emoji(*self),
    {
        match self {
            Region::NASA => String::from_str("🌎"),
            Region::EU => String::from_str("🌍"),
            Region::APAC => String::from_str("🌏"),
        }
    }
}

/// A law of regions: every region is found again from its short name.
pub proof fn lemma_region_key_round_trip(r: Region)
    ensures
        region_of_key(region_key(r)) == Some(r),
{
    reveal_strlit("NASA");
    reveal_strlit("EU");
    reveal_strlit("APAC");
    assert("NASA"@.len() == 4 && "EU"@.len() == 2 && "APAC"@.len() == 4);
    assert("NASA"@[0] != "APAC"@[0]);
}


/// A law of regions: a region stored by its full name is read back as the same region,
/// whatever the ASCII case it was stored in.
pub proof fn lemma_region_name_round_trip(r: Region, stored: Seq<char>)
    requires
        eq_ignore_ascii_case(stored, region_name(r)),
    ensures
        region_of_name(stored) == Some(r),
{
    reveal_strlit("North America & South America");
    reveal_strlit("Europe");
    reveal_strlit("Asia & Oceania");
}

/// A game mode that the tournament can be played in.
#[allow(non_camel_case_types)]
#[derive(Debug, Clone, Copy, PartialEq, Eq, Hash, Structural)]
pub enum Mode {
    /// Wipeout
    wipeout,
    /// Brawl Ball
    brawlBall,
    /// Gem Grab
    gemGrab,
    /// Heist
    heist,
    /// Hot Zone
    hotZone,
    /// Knockout
    knockout,
    /// Siege
    siege,
    /// Bounty
    bounty,
}

/// The display name of a mode, e.g. `Brawl Ball`.
pub open spec fn mode_name(m: Mode) -> Seq<char> {
    match m {
        Mode::wipeout => "Wipeout"@,
        Mode::brawlBall => "Brawl Ball"@,
        Mode::gemGrab => "Gem Grab"@,
        Mode::heist => "Heist"@,
        Mode::hotZone => "Hot Zone"@,
        Mode::knockout => "Knockout"@,
        Mode::siege => "Siege"@,
        Mode::bounty => "Bounty"@,
    }
}

/// The key of a mode, e.g. `brawlBall`.
pub open spec fn mode_key(m: Mode) -> Seq<char> {
    match m {
        Mode::wipeout => "wipeout"@,
        Mode::brawlBall => "brawlBall"@,
        Mode::gemGrab => "gemGrab"@,
        Mode::heist => "heist"@,
        Mode::hotZone => "hotZone"@,
        Mode::knockout => "knockout"@,
        Mode::siege => "siege"@,
        Mode::bounty => "bounty"@,
    }
}

/// The mode that `name` stands for: its display name or its key.
pub open spec fn mode_of(name: Seq<char>) -> Option<Mode> {
    if name == "Wipeout"@ || name == "wipeout"@ {
        Some(Mode::wipeout)
    } else if name == "Brawl Ball"@ || name == "brawlBall"@ {
        Some(Mode::brawlBall)
    } else if name == "Gem Grab"@ || name == "gemGrab"@ {
        Some(Mode::gemGrab)
    } else if name == "Heist"@ || name == "heist"@ {
        Some(Mode::heist)
    } else if name == "Hot Zone"@ || name == "hotZone"@ {
        Some(Mode::hotZone)
    } else if name == "Knockout"@ || name == "knockout"@ {
        Some(Mode::knockout)
    } else if name == "Siege"@ || name == "siege"@ {
        Some(Mode::siege)
    } else if name == "Bounty"@ || name == "bounty"@ {
        Some(Mode::bounty)
    } else {
        None
    }
}

impl Mode {
    /// The display name of the mode, e.g. `Brawl Ball`.
    pub fn name(&self) -> (r: String)
        ensures
            r@ == mode_name(*self),
    {
        match self {
            Mode::wipeout => String::from_str("Wipeout"),
            Mode::brawlBall => String::from_str("Brawl Ball"),
            Mode::gemGrab => String::from_str("Gem Grab"),
            Mode::heist => String::from_str("Heist"),
            Mode::hotZone => String::from_str("Hot Zone"),
            Mode::knockout => String::from_str("Knockout"),
            Mode::siege => String::from_str("Siege"),
            Mode::bounty => String::from_str("Bounty"),
        }
    }

    /// The name of the mode in the Brawl Stars API, e.g. `brawlBall`.
    pub fn key(&self) -> (r: String)
        ensures
            r@ == mode_key(*self),
    {
        match self {
            Mode::wipeout => String::from_str("wipeout"),
            Mode::brawlBall => String::from_str("brawlBall"),
            Mode::gemGrab => String::from_str("gemGrab"),
            Mode::heist => String::from_str("heist"),
            Mode::hotZone => String::from_str("hotZone"),
            Mode::knockout => String::from_str("knockout"),
            Mode::siege => String::from_str("siege"),
            Mode::bounty => String::from_str("bounty"),
        }
    }

    /// The mode named by its display name or by its key.
    pub fn find_key(name: &str) -> (r: Option<Mode>)
        ensures
            r == mode_of(name@),
    {
        if same_text(name, "Wipeout") || same_text(name, "wipeout") {
            Some(Mode::wipeout)
        } else if same_text(name, "Brawl Ball") || same_text(name, "brawlBall") {
            Some(Mode::brawlBall)
        } else if same_text(name, "Gem Grab") || same_text(name, "gemGrab") {
            Some(Mode::gemGrab)
        } else if same_text(name, "Heist") || same_text(name, "heist") {
            Some(Mode::heist)
        } else if same_text(name, "Hot Zone") || same_text(name, "hotZone") {
            Some(Mode::hotZone)
        } else if same_text(name, "Knockout") || same_text(name, "knockout") {
            Some(Mode::knockout)
        } else if same_text(name, "Siege") || same_text(name, "siege") {
            Some(Mode::siege)
        } else if same_text(name, "Bounty") || same_text(name, "bounty") {
            Some(Mode::bounty)
        } else {
            None
        }
    }
}

/// A law of modes: every mode is found again from its display name and from its key.
pub proof fn lemma_mode_round_trip(m: Mode)
    ensures
        mode_of(mode_name(m)) == Some(m),
        mode_of(mode_key(m)) == Some(m),
{
    match m {
        Mode::wipeout => {
            reveal_strlit("Wipeout");
            reveal_strlit("wipeout");
        },
        Mode::brawlBall => {
            reveal_strlit("Brawl Ball");
            reveal_strlit("Wipeout");
            reveal_strlit("brawlBall");
            reveal_strlit("wipeout");
            assert("brawlBall"@.len() != "wipeout"@.len());
            assert("brawlBall"@.len() != "Wipeout"@.len());
            assert("Brawl Ball"@.len() != "wipeout"@.len());
            assert("Brawl Ball"@.len() != "Wipeout"@.len());
        },
        Mode::gemGrab => {
            reveal_strlit("Brawl Ball");
            reveal_strlit("Gem Grab");
            reveal_strlit("Wipeout");
            reveal_strlit("brawlBall");
            reveal_strlit("gemGrab");
            reveal_strlit("wipeout");
            assert("gemGrab"@[0] != "wipeout"@[0]);
            assert("gemGrab"@[0] != "Wipeout"@[0]);
            assert("gemGrab"@.len() != "brawlBall"@.len());
            assert("gemGrab"@.len() != "Brawl Ball"@.len());
            assert("Gem Grab"@.len() != "wipeout"@.len());
            assert("Gem Grab"@.len() != "Wipeout"@.len());
            assert("Gem Grab"@.len() != "brawlBall"@.len());
            assert("Gem Grab"@.len() != "Brawl Ball"@.len());
        },
        Mode::heist => {
            reveal_strlit("Brawl Ball");
            reveal_strlit("Gem Grab");
            reveal_strlit("Heist");
            reveal_strlit("Wipeout");
            reveal_strlit("brawlBall");
            reveal_strlit("gemGrab");
            reveal_strlit("heist");
            reveal_strlit("wipeout");
            assert("heist"@.len() != "wipeout"@.len());
            assert("heist"@.len() != "Wipeout"@.len());
            assert("heist"@.len() != "brawlBall"@.len());
            assert("heist"@.len() != "Brawl Ball"@.len());
            assert("heist"@.len() != "gemGrab"@.len());
            assert("heist"@.len() != "Gem Grab"@.len());
            assert("Heist"@.len() != "wipeout"@.len());
            assert("Heist"@.len() != "Wipeout"@.len());
            assert("Heist"@.len() != "brawlBall"@.len());
            assert("Heist"@.len() != "Brawl Ball"@.len());
            assert("Heist"@.len() != "gemGrab"@.len());
            assert("Heist"@.len() != "Gem Grab"@.len());
        },
        Mode::hotZone => {
            reveal_strlit("Brawl Ball");
            reveal_strlit("Gem Grab");
            reveal_strlit("Heist");
            reveal_strlit("Hot Zone");
            reveal_strlit("Wipeout");
            reveal_strlit("brawlBall");
            reveal_strlit("gemGrab");
            reveal_strlit("heist");
            reveal_strlit("hotZone");
            reveal_strlit("wipeout");
            assert("hotZone"@[0] != "wipeout"@[0]);
            assert("hotZone"@[0] != "Wipeout"@[0]);
            assert("hotZone"@.len() != "brawlBall"@.len());
            assert("hotZone"@.len() != "Brawl Ball"@.len());
            assert("hotZone"@[0] != "gemGrab"@[0]);
            assert("hotZone"@.len() != "Gem Grab"@.len());
            assert("hotZone"@.len() != "heist"@.len());
            assert("hotZone"@.len() != "Heist"@.len());
            assert("Hot Zone"@.len() != "wipeout"@.len());
            assert("Hot Zone"@.len() != "Wipeout"@.len());
            assert("Hot Zone"@.len() != "brawlBall"@.len());
            assert("Hot Zone"@.len() != "Brawl Ball"@.len());
            assert("Hot Zone"@.len() != "gemGrab"@.len());
            assert("Hot Zone"@[0] != "Gem Grab"@[0]);
            assert("Hot Zone"@.len() != "heist"@.len());
            assert("Hot Zone"@.len() != "Heist"@.len());
        },
        Mode::knockout => {
            reveal_strlit("Brawl Ball");
            reveal_strlit("Gem Grab");
            reveal_strlit("Heist");
            reveal_strlit("Hot Zone");
            reveal_strlit("Knockout");
            reveal_strlit("Wipeout");
            reveal_strlit("brawlBall");
            reveal_strlit("gemGrab");
            reveal_strlit("heist");
            reveal_strlit("hotZone");
            reveal_strlit("knockout");
            reveal_strlit("wipeout");
            assert("knockout"@.len() != "wipeout"@.len());
            assert("knockout"@.len() != "Wipeout"@.len());
            assert("knockout"@.len() != "brawlBall"@.len());
            assert("knockout"@.len() != "Brawl Ball"@.len());
            assert("knockout"@.len() != "gemGrab"@.len());
            assert("knockout"@[0] != "Gem Grab"@[0]);
            assert("knockout"@.len() != "heist"@.len());
            assert("knockout"@.len() != "Heist"@.len());
            assert("knockout"@.len() != "hotZone"@.len());
            assert("knockout"@[0] != "Hot Zone"@[0]);
            assert("Knockout"@.len() != "wipeout"@.len());
            assert("Knockout"@.len() != "Wipeout"@.len());
            assert("Knockout"@.len() != "brawlBall"@.len());
            assert("Knockout"@.len() != "Brawl Ball"@.len());
            assert("Knockout"@.len() != "gemGrab"@.len());
            assert("Knockout"@[0] != "Gem Grab"@[0]);
            assert("Knockout"@.len() != "heist"@.len());
            assert("Knockout"@.len() != "Heist"@.len());
            assert("Knockout"@.len() != "hotZone"@.len());
            assert("Knockout"@[0] != "Hot Zone"@[0]);
        },
        Mode::siege => {
            reveal_strlit("Brawl Ball");
            reveal_strlit("Gem Grab");
            reveal_strlit("Heist");
            reveal_strlit("Hot Zone");
            reveal_strlit("Knockout");
            reveal_strlit("Siege");
            reveal_strlit("Wipeout");
            reveal_strlit("brawlBall");
            reveal_strlit("gemGrab");
            reveal_strlit("heist");
            reveal_strlit("hotZone");
            reveal_strlit("knockout");
            reveal_strlit("siege");
            reveal_strlit("wipeout");
            assert("siege"@.len() != "wipeout"@.len());
            assert("siege"@.len() != "Wipeout"@.len());
            assert("siege"@.len() != "brawlBall"@.len());
            assert("siege"@.len() != "Brawl Ball"@.len());
            assert("siege"@.len() != "gemGrab"@.len());
            assert("siege"@.len() != "Gem Grab"@.len());
            assert("siege"@[0] != "heist"@[0]);
            assert("siege"@[0] != "Heist"@[0]);
            assert("siege"@.len() != "hotZone"@.len());
            assert("siege"@.len() != "Hot Zone"@.len());
            assert("siege"@.len() != "knockout"@.len());
            assert("siege"@.len() != "Knockout"@.len());
            assert("Siege"@.len() != "wipeout"@.len());
            assert("Siege"@.len() != "Wipeout"@.len());
            assert("Siege"@.len() != "brawlBall"@.len());
            assert("Siege"@.len() != "Brawl Ball"@.len());
            assert("Siege"@.len() != "gemGrab"@.len());
            assert("Siege"@.len() != "Gem Grab"@.len());
            assert("Siege"@[0] != "heist"@[0]);
            assert("Siege"@[0] != "Heist"@[0]);
            assert("Siege"@.len() != "hotZone"@.len());
            assert("Siege"@.len() != "Hot Zone"@.len());
            assert("Siege"@.len() != "knockout"@.len());
            assert("Siege"@.len() != "Knockout"@.len());
        },
        Mode::bounty => {
            reveal_strlit("Bounty");
            reveal_strlit("Brawl Ball");
            reveal_strlit("Gem Grab");
            reveal_strlit("Heist");
            reveal_strlit("Hot Zone");
            reveal_strlit("Knockout");
            reveal_strlit("Siege");
            reveal_strlit("Wipeout");
            reveal_strlit("bounty");
            reveal_strlit("brawlBall");
            reveal_strlit("gemGrab");
            reveal_strlit("heist");
            reveal_strlit("hotZone");
            reveal_strlit("knockout");
            reveal_strlit("siege");
            reveal_strlit("wipeout");
            assert("bounty"@.len() != "wipeout"@.len());
            assert("bounty"@.len() != "Wipeout"@.len());
            assert("bounty"@.len() != "brawlBall"@.len());
            assert("bounty"@.len() != "Brawl Ball"@.len());
            assert("bounty"@.len() != "gemGrab"@.len());
            assert("bounty"@.len() != "Gem Grab"@.len());
            assert("bounty"@.len() != "heist"@.len());
            assert("bounty"@.len() != "Heist"@.len());
            assert("bounty"@.len() != "hotZone"@.len());
            assert("bounty"@.len() != "Hot Zone"@.len());
            assert("bounty"@.len() != "knockout"@.len());
            assert("bounty"@.len() != "Knockout"@.len());
            assert("bounty"@.len() != "siege"@.len());
            assert("bounty"@.len() != "Siege"@.len());
            assert("Bounty"@.len() != "wipeout"@.len());
            assert("Bounty"@.len() != "Wipeout"@.len());
            assert("Bounty"@.len() != "brawlBall"@.len());
            assert("Bounty"@.len() != "Brawl Ball"@.len());
            assert("Bounty"@.len() != "gemGrab"@.len());
            assert("Bounty"@.len() != "Gem Grab"@.len());
            assert("Bounty"@.len() != "heist"@.len());
            assert("Bounty"@.len() != "Heist"@.len());
            assert("Bounty"@.len() != "hotZone"@.len());
            assert("Bounty"@.len() != "Hot Zone"@.len());
            assert("Bounty"@.len() != "knockout"@.len());
            assert("Bounty"@.len() != "Knockout"@.len());
            assert("Bounty"@.len() != "siege"@.len());
            assert("Bounty"@.len() != "Siege"@.len());
        },
    }
}

} // verus!

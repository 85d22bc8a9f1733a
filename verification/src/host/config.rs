use crate::region::{mode_name, mode_of, Mode};
use crate::text::same_text;
use vstd::prelude::*;
use vstd::string::*;

verus! {

/// The settings of a region's tournament, as the configuration document holds them;
/// a setting not made yet is `None`.
pub struct Settings {
    pub registration: bool,
    pub tournament: bool,
    pub mode: Option<String>,
    pub map: Option<String>,
    pub role: Option<String>,
    pub channel: Option<String>,
    pub bracket_channel: Option<String>,
}

/// A setting as shown: its text wrapped in `open` and `close`, or `Not yet set`.
pub open spec fn shown(value: Option<String>, open: Seq<char>, close: Seq<char>) -> Seq<char> {
    match value {
        Some(v) => open + v@ + close,
        None => "Not yet set"@,
    }
}

/// The mode as shown: its display name, or `Not yet set`.
pub open spec fn shown_mode(mode: Option<String>) -> Seq<char> {
    match mode {
        Some(m) => mode_name(mode_of(m@).unwrap()),
        None => "Not yet set"@,
    }
}

/// The description of the configuration menu.
pub open spec fn settings_text(s: Settings) -> Seq<char> {
    "\n        **Registration status:** "@ + (if s.registration {
        "Open"@
    } else {
        "Closed"@
    }) + "\n        **Tournament status:** "@ + (if s.tournament {
        "Ongoing"@
    } else {
        "Not yet started"@
    }) + "\n        **Mode:** "@ + shown_mode(s.mode) + "\n        **Map:** "@ + (match s.map {
        Some(m) => m@,
        None => "Any"@,
    }) + "\n        **Role assigned to players:** "@ + shown(s.role, "<@&"@, ">"@)
        + "\n        **Channel to publish results of matches:** "@ + shown(s.channel, "<#"@, ">"@)
        + "\n        **Channel to publish the tournament bracket:** "@ + shown(
        s.bracket_channel,
        "<#"@,
        ">"@,
    ) + "\n        "@
}

fn append_shown(out: &mut String, value: &Option<String>, open: &str, close: &str)
    ensures
        final(out)@ == old(out)@ + shown(*value, open@, close@),
{
    match value {
        Some(v) => {
            out.append(open);
            out.append(v.as_str());
            out.append(close);
        },
        None => out.append("Not yet set"),
    }
}

/// Writes the description of the configuration menu (see `settings_text`); a mode that
/// is set must be one the bot knows.
pub fn settings_description(s: &Settings) -> (r: String)
    requires
        s.mode matches Some(m) ==> mode_of(m@) is Some,
    ensures
        r@ == settings_text(*s),
{
    let mut out = String::from_str("\n        **Registration status:** ");
    out.append(if s.registration { "Open" } else { "Closed" });
    out.append("\n        **Tournament status:** ");
    out.append(if s.tournament { "Ongoing" } else { "Not yet started" });
    out.append("\n        **Mode:** ");
    match &s.mode {
        Some(m) => {
            let mode = Mode::find_key(m.as_str()).unwrap();
            let name = mode.name();
            out.append(name.as_str());
        },
        None => out.append("Not yet set"),
    }
    out.append("\n        **Map:** ");
    match &s.map {
        Some(m) => out.append(m.as_str()),
        None => out.append("Any"),
    }
    out.append("\n        **Role assigned to players:** ");
    append_shown(&mut out, &s.role, "<@&", ">");
    out.append("\n        **Channel to publish results of matches:** ");
    append_shown(&mut out, &s.channel, "<#", ">");
    out.append("\n        **Channel to publish the tournament bracket:** ");
    append_shown(&mut out, &s.bracket_channel, "<#", ">");
    out.append("\n        ");
    assert(out@ =~= settings_text(*s));
    out
}

/// The setting a choice of the configuration menu opens.
#[derive(Debug, Clone, Copy, PartialEq, Eq, Structural)]
pub enum Setting {
    Mode,
    Role,
    Channel,
    MapName,
    BracketChannel,
}

/// The setting chosen by the menu value `value`, if it is one.
pub open spec fn setting_of(value: Seq<char>) -> Option<Setting> {
    if value == "mode"@ {
        Some(Setting::Mode)
    } else if value == "role"@ {
        Some(Setting::Role)
    } else if value == "channel"@ {
        Some(Setting::Channel)
    } else if value == "map"@ {
        Some(Setting::MapName)
    } else if value == "bracket_channel"@ {
        Some(Setting::BracketChannel)
    } else {
        None
    }
}

/// The setting chosen in the configuration menu; `None` for a value of no setting.
pub fn chosen_setting(value: &str) -> (r: Option<Setting>)
    ensures
        r == setting_of(value@),
{
    if same_text(value, "mode") {
        Some(Setting::Mode)
    } else if same_text(value, "role") {
        Some(Setting::Role)
    } else if same_text(value, "channel") {
        Some(Setting::Channel)
    } else if same_text(value, "map") {
        Some(Setting::MapName)
    } else if same_text(value, "bracket_channel") {
        Some(Setting::BracketChannel)
    } else {
        None
    }
}

} // verus!

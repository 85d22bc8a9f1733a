use dbc_bot::misc::{
    get_color, get_difficulty, get_icon, get_mode_icon, get_player_icon_url, get_round,
    is_mannequin, proper_tag, result_colour, BsonValue, CustomError, IconKind,
};
use dbc_bot::region::{Mode, Region};
use dbc_bot::utils;

#[test]
fn region_keys_round_trip() {
    for r in [Region::NASA, Region::EU, Region::APAC] {
        assert_eq!(Region::find_key(&r.short()), Some(r));
    }
    assert_eq!(Region::find_key("nasa"), None);
    assert_eq!(Region::find_key(""), None);
}

#[test]
fn region_names_and_emojis() {
    assert_eq!(Region::NASA.short(), "NASA");
    assert_eq!(Region::NASA.full(), "North America & South America");
    assert_eq!(Region::EU.full(), "Europe");
    assert_eq!(Region::APAC.full(), "Asia & Oceania");
    assert_eq!(Region::NASA.get_emoji(), "🌎");
    assert_eq!(Region::EU.get_emoji(), "🌍");
    assert_eq!(Region::APAC.get_emoji(), "🌏");
}

#[test]
fn region_from_name_ignores_ascii_case() {
    assert_eq!(Region::from_name("europe"), Some(Region::EU));
    assert_eq!(Region::from_name("ASIA & OCEANIA"), Some(Region::APAC));
    assert_eq!(Region::from_name("North America & South America"), Some(Region::NASA));
    assert_eq!(Region::from_name("EU"), None);
}

#[test]
fn region_from_bson_reads_text_values_only() {
    let v = BsonValue::String("Europe".to_string());
    assert_eq!(Region::from_bson(&v), Some(Region::EU));
    assert_eq!(Region::from_bson(&BsonValue::Int32(1)), None);
    assert_eq!(Region::from_bson(&BsonValue::Null), None);
}

#[test]
fn modes_found_by_name_and_key() {
    assert_eq!(Mode::find_key("Brawl Ball"), Some(Mode::brawlBall));
    assert_eq!(Mode::find_key("brawlBall"), Some(Mode::brawlBall));
    assert_eq!(Mode::find_key("Hot Zone"), Some(Mode::hotZone));
    assert_eq!(Mode::find_key("hotZone"), Some(Mode::hotZone));
    assert_eq!(Mode::find_key("Wipeout"), Some(Mode::wipeout));
    assert_eq!(Mode::find_key("bounty"), Some(Mode::bounty));
    assert_eq!(Mode::find_key("brawl ball"), None);
    assert_eq!(Mode::find_key("raid"), None);
}

#[test]
fn difficulty_labels() {
    assert_eq!(get_difficulty(0), "Easy");
    assert_eq!(get_difficulty(3), "Expert");
    assert_eq!(get_difficulty(5), "Insane");
    assert_eq!(get_difficulty(6), "Insane II");
    assert_eq!(get_difficulty(20), "Insane XVI");
    assert_eq!(
        get_difficulty(21),
        "Congratulations, either we were wrong, or you unlocked new difficulty"
    );
    assert_eq!(
        get_difficulty(-1),
        "Congratulations, either we were wrong, or you unlocked new difficulty"
    );
}

#[test]
fn mode_icons_by_event_name() {
    assert_eq!(
        get_mode_icon("gemGrab".to_string()),
        Some("https://cdn.brawlstats.com/event-icons/event_mode_gem_grab.png".to_string())
    );
    assert_eq!(
        get_mode_icon("brawlBall".to_string()),
        Some("https://cdn.brawlstats.com/event-icons/event_mode_brawl_ball.png".to_string())
    );
    assert_eq!(
        get_mode_icon("wipeout".to_string()),
        Some("https://cdn.brawlstats.com/event-icons/event_mode_wipeout.png".to_string())
    );
    assert_eq!(
        get_mode_icon("duoShowdown".to_string()),
        Some("https://cdn.brawlstats.com/event-icons/event_mode_showdown.png".to_string())
    );
    assert_eq!(get_mode_icon("duels".to_string()), None);
    assert_eq!(get_mode_icon("unknown".to_string()), None);
}

#[test]
fn battle_log_mode_icons_strip_quotes() {
    assert_eq!(
        utils::get_mode_icon("\"brawlBall\"".to_string()),
        Some("https://cdn.brawlstats.com/event-icons/event_mode_brawl_ball.png")
    );
    assert_eq!(
        utils::get_mode_icon("\"wipeout\"".to_string()),
        Some("https://cdn.brawlstats.com/event-icons/event_mode_wipe_out.png")
    );
    assert_eq!(
        utils::get_mode_icon("\"soloShowdown\"".to_string()),
        Some("https://cdn.brawlstats.com/event-icons/event_mode_solo_showdown.png")
    );
    assert_eq!(utils::get_mode_icon("null".to_string()), None);
    assert_eq!(utils::get_mode_icon("\"raid\"".to_string()), None);
}

#[test]
fn player_icon_and_icon_kinds() {
    assert_eq!(
        get_player_icon_url("28000000".to_string()),
        "https://cdn-old.brawlify.com/profile-low/28000000.png"
    );
    let player = get_icon("player");
    assert_eq!(player, IconKind::Player);
    assert_eq!(
        player.call("28000012".to_string()),
        Some("https://cdn-old.brawlify.com/profile-low/28000012.png".to_string())
    );
    let mode = get_icon("mode");
    assert_eq!(mode.call("duels".to_string()), None);
    assert_eq!(mode, IconKind::Mode);
    assert_eq!(
        mode.call("heist".to_string()),
        Some("https://cdn.brawlstats.com/event-icons/event_mode_heist.png".to_string())
    );
}

#[test]
fn api_links() {
    assert_eq!(
        utils::get_api_link("player", "2PP"),
        "https://bsproxy.royaleapi.dev/v1/players/%232PP"
    );
    assert_eq!(
        utils::get_api_link("battle_log", "2PP"),
        "https://bsproxy.royaleapi.dev/v1/players/%232PP/battlelog"
    );
}

#[test]
fn result_colours() {
    assert_eq!(result_colour("victory"), 0x00800);
    assert_eq!(result_colour("defeat"), 0xFF0000);
    assert_eq!(result_colour("draw"), 0xFFFFFF);
    assert_eq!(result_colour("unknown"), 0);
    assert_eq!(get_color("victory".to_string()).0, 0x00800);
    assert_eq!(get_color("defeat".to_string()).0, 0xFF0000);
    assert_eq!(get_color("draw".to_string()).0, 0xFFFFFF);
    assert_eq!(get_color("Victory".to_string()).0, 0);
}

#[test]
fn custom_error_text() {
    let e = CustomError("An error occurred".to_string());
    assert_eq!(e.to_string(), "CustomError: An error occurred");
}

#[test]
fn bson_as_u32() {
    assert_eq!(BsonValue::Int32(7).as_u32(), Some(7));
    assert_eq!(BsonValue::Int32(-1).as_u32(), None);
    assert_eq!(BsonValue::Int64(4294967295).as_u32(), Some(4294967295));
    assert_eq!(BsonValue::Int64(4294967296).as_u32(), None);
    assert_eq!(BsonValue::Int64(-5).as_u32(), None);
    assert_eq!(BsonValue::String("7".to_string()).as_u32(), None);
    assert_eq!(BsonValue::Null.as_u32(), None);
}

#[test]
fn round_names() {
    assert_eq!(get_round(&BsonValue::Int32(0)), "Players");
    assert_eq!(get_round(&BsonValue::Int32(3)), "Round 3");
    assert_eq!(get_round(&BsonValue::Int32(-2)), "Round -2");
}

#[test]
fn mannequins_have_null_tags() {
    assert!(is_mannequin(&BsonValue::Null));
    assert!(!is_mannequin(&BsonValue::String("#2PP".to_string())));
}

#[test]
fn stored_tags_have_one_hash() {
    assert_eq!(proper_tag("2PP"), "#2PP");
    assert_eq!(proper_tag("#2PP"), "#2PP");
    assert_eq!(proper_tag(""), "#");
    assert_eq!(proper_tag("##A"), "##A");
}

#[test]
fn regions_read_back_from_full_names() {
    for r in [Region::NASA, Region::EU, Region::APAC] {
        assert_eq!(Region::from_name(&r.full()), Some(r));
        assert_eq!(Region::from_name(&r.full().to_uppercase()), Some(r));
        assert_eq!(Region::from_bson(&BsonValue::String(r.full().to_lowercase())), Some(r));
    }
}

#[test]
fn round_collections() {
    assert_eq!(dbc_bot::misc::round_collection(&BsonValue::Int32(0)), "Player");
    assert_eq!(dbc_bot::misc::round_collection(&BsonValue::Int32(2)), "Round 2");
}

use dbc_bot::host::detail::{player_card, registration_panel, Reg};
use dbc_bot::host::config::{chosen_setting, settings_description, Setting, Settings};
use dbc_bot::host::download::{id_lines, page_footer};
use dbc_bot::host::reset::{collection_action, reset_text, CollectionAction, ResetStage};
use dbc_bot::host::rounds::{group_by_match, unfinished_match, WaitingPlayer};
use dbc_bot::host::statistics::{statistics_report, Counts};
use dbc_bot::region::{Mode, Region};
use dbc_bot::text::starts_with_text;

#[test]
fn settings_menu_text() {
    let fresh = Settings {
        registration: false,
        tournament: false,
        mode: None,
        map: None,
        role: None,
        channel: None,
        bracket_channel: None,
    };
    assert_eq!(
        settings_description(&fresh),
        "\n        **Registration status:** Closed\n        **Tournament status:** Not yet started\n        **Mode:** Not yet set\n        **Map:** Any\n        **Role assigned to players:** Not yet set\n        **Channel to publish results of matches:** Not yet set\n        **Channel to publish the tournament bracket:** Not yet set\n        "
    );
    let set = Settings {
        registration: true,
        tournament: true,
        mode: Some("gemGrab".to_string()),
        map: Some("Hard Rock Mine".to_string()),
        role: Some("11".to_string()),
        channel: Some("22".to_string()),
        bracket_channel: Some("33".to_string()),
    };
    let text = settings_description(&set);
    assert!(text.contains("**Registration status:** Open\n"));
    assert!(text.contains("**Tournament status:** Ongoing\n"));
    assert!(text.contains("**Mode:** Gem Grab\n"));
    assert!(text.contains("**Map:** Hard Rock Mine\n"));
    assert!(text.contains("**Role assigned to players:** <@&11>\n"));
    assert!(text.contains("**Channel to publish results of matches:** <#22>\n"));
    assert!(text.contains("**Channel to publish the tournament bracket:** <#33>\n"));
}

#[test]
fn settings_menu_choices() {
    assert_eq!(chosen_setting("mode"), Some(Setting::Mode));
    assert_eq!(chosen_setting("role"), Some(Setting::Role));
    assert_eq!(chosen_setting("channel"), Some(Setting::Channel));
    assert_eq!(chosen_setting("map"), Some(Setting::MapName));
    assert_eq!(chosen_setting("bracket_channel"), Some(Setting::BracketChannel));
    assert_eq!(chosen_setting("Mode"), None);
}

#[test]
fn mode_names_and_keys() {
    assert_eq!(Mode::brawlBall.name(), "Brawl Ball");
    assert_eq!(Mode::brawlBall.key(), "brawlBall");
    assert_eq!(Mode::hotZone.name(), "Hot Zone");
    for m in [Mode::wipeout, Mode::gemGrab, Mode::heist, Mode::knockout, Mode::siege, Mode::bounty] {
        assert_eq!(Mode::find_key(&m.name()), Some(m));
        assert_eq!(Mode::find_key(&m.key()), Some(m));
    }
}

#[test]
fn id_file_lines() {
    assert_eq!(id_lines(&[]), "");
    assert_eq!(id_lines(&["1".to_string(), "22".to_string()]), "1\n22\n");
}

#[test]
fn page_footers() {
    assert_eq!(page_footer(0, 3), "Page 1/3");
    assert_eq!(page_footer(2, 3), "Page 3/3");
}

#[test]
fn reset_progress_texts() {
    assert_eq!(
        reset_text(ResetStage::Starting),
        "\n<:info:1187845402163167363> Getting ready to reset the tournament...\n"
    );
    assert_eq!(
        reset_text(ResetStage::ClearingRounds),
        "\n<:info:1187845402163167363> Getting ready to reset the tournament...\n<a:loading:1187839622680690689> Clearing all rounds and resetting the config to default...\n"
    );
    let done = reset_text(ResetStage::Done);
    assert!(done.ends_with("<:tick:1187839626338111600> Complete! Registration is empty!\n"));
    assert!(done.contains("Complete! All regional roles are removed!\n"));
    assert!(!done.contains("loading"));
    assert_eq!(reset_text(ResetStage::ClearingPlayers).lines().count(), 5);
}

#[test]
fn reset_collection_actions() {
    assert_eq!(collection_action("Round 1"), CollectionAction::Drop);
    assert_eq!(collection_action("Config"), CollectionAction::ResetConfig);
    assert_eq!(collection_action("Players"), CollectionAction::Keep);
    assert_eq!(collection_action("round 1"), CollectionAction::Keep);
    assert!(starts_with_text("Round 2", "Round"));
    assert!(starts_with_text("abc", ""));
    assert!(!starts_with_text("Rou", "Round"));
}

#[test]
fn matches_grouped_in_order() {
    let ids = vec![Some(3), Some(1), None, Some(3), Some(2), Some(1)];
    let groups = group_by_match(&ids);
    assert_eq!(groups, vec![vec![0, 3], vec![1, 5], vec![4]]);
    assert_eq!(group_by_match(&vec![None, None]), Vec::<Vec<usize>>::new());
    assert_eq!(group_by_match(&Vec::new()), Vec::<Vec<usize>>::new());
}

#[test]
fn unfinished_match_notice() {
    let a = WaitingPlayer { match_id: 4, discord_id: "1".into(), name: "Ann".into(), tag: "#A".into() };
    let b = WaitingPlayer { match_id: 4, discord_id: "2".into(), name: "Bob".into(), tag: "#B".into() };
    assert_eq!(
        unfinished_match(&a, &b),
        "**Some battles are not finished!**\n# Match 4 \n<@1> - <@2>\nAnn(#A) - Bob(#B)"
    );
}

#[test]
fn statistics_text() {
    let c = Counts {
        players: 10,
        rounds: 4,
        current_round: 2,
        matches: 3,
        current_players: 6,
        byes: 1,
        advanced: 2,
        eliminated: 2,
        played: 2,
        unplayed: 1,
        inactive: 0,
    };
    let text = statistics_report(Region::EU, c);
    assert!(text.starts_with("**Region: Europe insight.**\n# Overall statistics:\n**👥 Players**: 10\n**⚽ Rounds**: 4\n# Round 2 statistics:\n"));
    assert!(text.contains("**👋 Byes:**: 1 (Note: disqualifed player will be replaced by bye)\n"));
    assert!(text.ends_with("**💀 Inactive players**: 0\n"));
}

#[test]
fn registration_panel_text() {
    let reg = Reg { registration: true, tournament: false, count: 12, region: Region::NASA };
    assert_eq!(
        registration_panel(&reg),
        "Registration is currently: Open\nThere are 12 registered players for the tournament of North America & South America.\nBelow are options:\n🔒: Toggle registration\n- Open/Close registration phase for players.\n- This will be disabled during the tournament phase.\n🔍: View\n- Lets you see all players who has already registered in the tournament\n"
    );
    let running = Reg { registration: false, tournament: true, count: 0, region: Region::EU };
    let text = registration_panel(&running);
    assert!(text.starts_with("Registration is currently: Closed\nThere are 0 registered players for the tournament of Europe.\nNotice: Tournament is currently running. Toggle is disabled!\nBelow are options:"));
}

#[test]
fn player_cards() {
    let card = player_card("Round 2", Region::APAC, Some("Ann"), "#A", "42", Some(7), true, 3, 9);
    assert_eq!(card.title, "Round Round 2 - DBC Tournament Region Asia & Oceania");
    assert_eq!(card.description, "Player **Ann (#A)**'s info");
    assert_eq!(card.discord, "<@42>");
    assert_eq!(card.match_text, "7");
    assert_eq!(card.battle, "Already played");
    assert_eq!(card.footer, "3 out of 9 players.");
    let unknown = player_card("Players", Region::EU, None, "#B", "1", None, false, 1, 1);
    assert_eq!(unknown.description, "Player **Unknown player (#B)**'s info");
    assert_eq!(unknown.match_text, "Not yet assigned");
    assert_eq!(unknown.battle, "Not yet played");
}

use dbc_bot::host::disqualify::{disqualify_action, parse_user_id, DisqualifyAction};
use dbc_bot::log::{disqualify_description, inactive_descriptions, join_names, Form, LogType};
use dbc_bot::players::submit::{compare_strings, compare_tag};
use dbc_bot::players::view::match_brief;
use dbc_bot::quote::QuoteStripper;
use dbc_bot::region::Region;
use dbc_bot::reply::{error_reply, is_fatal, Failure};
use dbc_bot::text::{contains_text, decimal_string, same_text, text_eq_ignore_ascii_case};
use dbc_bot::time::Time;

#[test]
fn strip_quote_removes_every_double_quote() {
    let s = String::from("\"Hello, world!\"");
    assert_eq!(s.strip_quote(), "Hello, world!");
    assert_eq!(String::from("a\"b\"\"c").strip_quote(), "abc");
    assert_eq!(String::new().strip_quote(), "");
}

#[test]
fn strip_quote_twice_is_strip_quote_once() {
    let s = String::from("\"\"x\"y\"");
    let once = s.strip_quote();
    assert_eq!(once.strip_quote(), once);
}

#[test]
fn decimal_text() {
    assert_eq!(decimal_string(0), "0");
    assert_eq!(decimal_string(123), "123");
    assert_eq!(decimal_string(u64::MAX), "18446744073709551615");
}

#[test]
fn text_comparisons() {
    assert!(same_text("abc", "abc"));
    assert!(!same_text("abc", "abd"));
    assert!(text_eq_ignore_ascii_case("HeLLo", "hello"));
    assert!(!text_eq_ignore_ascii_case("hello", "hell"));
    assert!(contains_text("https://cdn/profile/1.png", "profile"));
    assert!(contains_text("abc", ""));
    assert!(!contains_text("event", "events"));
    assert!(!contains_text("abc", "abd"));
}

#[test]
fn compare_strings_ignores_punctuation_and_case() {
    assert!(compare_strings("Hello World!", "helloworld"));
    assert!(compare_strings("Gem-Grab", "gem grab"));
    assert!(!compare_strings("Heist", "Hot Zone"));
}

#[test]
fn comparisons_are_symmetric() {
    for (a, b) in [("#2PP", "#2P0"), ("abc", "ABC"), ("x", "y")] {
        assert_eq!(compare_strings(a, b), compare_strings(b, a));
        assert_eq!(compare_tag(a, b), compare_tag(b, a));
    }
}

#[test]
fn tags_take_o_for_zero() {
    assert!(compare_tag("#2PP", "#2PP"));
    assert!(compare_tag("#O2P", "#02P"));
    assert!(!compare_tag("#2PP", "#2PQ"));
    assert!(!compare_tag("#2PP", "#2PPP"));
}

#[test]
fn time_standardising_reads_fields() {
    let t = Time::standardising("20231211T123456.000Z");
    assert_eq!(t.years, 2023);
    assert_eq!(t.months, 12);
    assert_eq!(t.days, 11);
    assert_eq!(t.hours, 12);
    assert_eq!(t.minutes, 34);
    assert_eq!(t.seconds, 56);
    assert_eq!(t.milliseconds, 0);
    assert_eq!(t.time, Some("2023-12-11T12:34:56Z".to_string()));
}

#[test]
fn time_format_drops_leading_zeros() {
    let t = Time::standardising("20230102T030405.678Z");
    assert_eq!(t.time, Some("2023-1-2T3:4:5Z".to_string()));
    assert_eq!(t.milliseconds, 678);
    assert!(t.get_unix_checked().is_none());
}

#[test]
fn time_unix_instant() {
    let t = Time::standardising("20231211T123456.000Z");
    assert_eq!(t.get_unix().unix_timestamp(), 1702298096);
    assert_eq!(t.get_unix_checked().map(|x| x.unix_timestamp()), Some(1702298096));
}

#[test]
fn time_relative_text() {
    let t = Time::standardising("20231211T123456.000Z");
    assert_eq!(t.relative_to(14, 40, 58), "2h 6m 2s ago");
    assert_eq!(t.relative_to(12, 34, 56), "0h 0m 0s ago");
    assert_eq!(t.relative_to(11, 34, 56), "4294967295h 0m 0s ago");
    assert!(t.get_relative().ends_with("s ago"));
}

#[test]
fn match_briefing() {
    let brief = match_brief(2, 5, "111", "222", "Gem Grab", None);
    assert!(brief.starts_with("# Round 2 - Match 5\n**<@111> vs. <@222>**\n"));
    assert!(brief.contains("## ⚔️ Mode: Gem Grab.\n- 🗺️ Map: Any.\n"));
    assert!(brief.ends_with("# Remember this is FIRST TO 2 WINS tournament!"));
    let with_map = match_brief(1, 1, "1", "2", "Heist", Some("Safe Zone"));
    assert!(with_map.contains("- 🗺️ Map: Safe Zone.\n"));
}

#[test]
fn disqualify_log_text_fills_default_reason() {
    let mut form = Form::new("42".to_string(), String::new());
    let text = disqualify_description(&mut form, Region::EU, "Round 1", 7);
    assert_eq!(form.reason, "Player has been disqualified from the tournament.");
    assert_eq!(
        text,
        "\n<@42>(`42`) has been disqualified from the tournament region Europe at Round 1.\n**Reason**: Player has been disqualified from the tournament.\n**Disqualified by**: <@7>(`7`).        \n          "
    );
}

#[test]
fn disqualify_log_keeps_given_reason() {
    let mut form = Form::new("42".to_string(), "cheating".to_string());
    let text = disqualify_description(&mut form, Region::NASA, "Players", 9);
    assert_eq!(form.reason, "cheating");
    assert!(text.contains("**Reason**: cheating\n"));
}

#[test]
fn fill_reason_twice_is_fill_reason_once() {
    let mut form = Form::new("1".to_string(), String::new());
    form.fill_reason();
    let once = form.reason.clone();
    form.fill_reason();
    assert_eq!(form.reason, once);
}

#[test]
fn joined_names() {
    assert_eq!(join_names(&[]), "");
    assert_eq!(join_names(&["a".to_string()]), "a");
    assert_eq!(join_names(&["a".to_string(), "b".to_string(), "c".to_string()]), "a, b, c");
}

#[test]
fn inactive_log_in_pieces_of_fifty() {
    let players: Vec<String> = (0..101).map(|i| format!("p{}", i)).collect();
    let texts = inactive_descriptions(Region::APAC, 5, &players);
    assert_eq!(texts.len(), 4);
    assert_eq!(
        texts[0],
        "Due to inactivity, the following players have been disqualified from the tournament region Asia & Oceania. Disqualifed by <@5>(`5`)"
    );
    assert!(texts[1].starts_with("p0, p1, "));
    assert!(texts[1].ends_with("p49"));
    assert!(texts[2].starts_with("p50, "));
    assert_eq!(texts[3], "p100");
    let none = inactive_descriptions(Region::EU, 5, &Vec::new());
    assert_eq!(none.len(), 1);
}

#[test]
fn log_types_are_distinct() {
    assert_ne!(LogType::Info, LogType::Disqualify);
    assert_ne!(LogType::DisqualifyInactives, LogType::Test);
}

#[test]
fn user_ids_read_back() {
    assert_eq!(parse_user_id("1181542953542488205"), 1181542953542488205);
    assert_eq!(parse_user_id("+12"), 12);
    assert_eq!(parse_user_id("abc"), 0);
    assert_eq!(parse_user_id(""), 0);
    assert_eq!(parse_user_id("18446744073709551616"), 0);
    for id in [0u64, 7, 1181542953542488205, u64::MAX] {
        assert_eq!(parse_user_id(&decimal_string(id)), id);
    }
}

#[test]
fn disqualify_menu_buttons() {
    assert_eq!(disqualify_action("open_modal"), DisqualifyAction::OpenForm);
    assert_eq!(disqualify_action("confirm"), DisqualifyAction::Confirm);
    assert_eq!(disqualify_action("cancel"), DisqualifyAction::Cancel);
    assert_eq!(disqualify_action("other"), DisqualifyAction::Ignore);
}

#[test]
fn failure_replies() {
    assert_eq!(
        error_reply(Failure::CooldownHit(12)),
        Some("This command is still on cooldown. Try again in 12 seconds".to_string())
    );
    assert_eq!(
        error_reply(Failure::CommandPanic),
        Some("The command has failed, please contact the bot operators if the issue persists.".to_string())
    );
    assert_eq!(
        error_reply(Failure::GuildOnly),
        Some("This command is only available in a Discord server.".to_string())
    );
    assert_eq!(error_reply(Failure::Command), None);
    assert_eq!(error_reply(Failure::UnknownCommand), None);
    assert!(is_fatal(Failure::Setup));
    assert!(!is_fatal(Failure::CommandPanic));
}

#[test]
fn time_relative_words() {
    let t = dbc_bot::misc::Time::standardising("20231211T123456.000Z");
    assert_eq!(t.relative_words_to(14, 40, 58), "2 hours, 6 minutes, 2 seconds ago");
    assert_eq!(t.relative_words_to(12, 30, 56), "0 hours, 4294967292 minutes, 0 seconds ago");
    assert!(t.get_relative_words().ends_with(" seconds ago"));
}

#[test]
fn compare_strings_ascii_examples() {
    assert!(compare_strings("Brawl Ball", "brawlBall"));
    assert!(compare_strings("friendly", "Friendly"));
    assert!(compare_strings("Hard-Rock Mine", "hard rock mine"));
    assert!(!compare_strings("Gem Grab", "Heist"));
}

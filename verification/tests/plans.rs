use dbc_bot::host::disqualify::{
    deregister_action, deregister_prompt, deregister_reply, disqualified_text, disqualify_step,
    DeregisterAction, DisqState, DisqStep,
};
use dbc_bot::host::download::chunk;
use dbc_bot::host::next::{paginate_buttons, paginate_step, PageAction};
use dbc_bot::host::rounds::{false_battles, sort_texts, text_le_exec, WaitingPlayer};
use dbc_bot::players::plan::{
    submit_plan, view_opponent_action, BracketLink, MatchSides, OpponentView,
};
use dbc_bot::players::submit::Side;
use dbc_bot::region::Region;
use dbc_bot::visual::battle::{compose_battle_image, rotate180, BattleArt};
use dbc_bot::visual::component::Picture;
use dbc_bot::visual::decode::{picture_from_bytes, text_picture_from_output, custom_image_from_bytes, TextError};
use dbc_bot::visual::model::CustomImage;
use base64::Engine;

fn sides() -> MatchSides {
    MatchSides {
        caller_name: "Ann".to_string(),
        caller_tag: "#A".to_string(),
        enemy_name: "Bob".to_string(),
        enemy_tag: "#B".to_string(),
    }
}

fn link() -> BracketLink {
    BracketLink { guild: 1, channel: "2".to_string(), message: "3".to_string() }
}

#[test]
fn submit_plans() {
    let bye = submit_plan(true, None, 2, 3, 5, &sides(), &link());
    assert_eq!(bye.insert_into, Some(("Round 3".to_string(), Side::Caller, 3)));
    assert!(bye.mark_winner.is_none() && bye.update_battle && bye.announcement.is_none());
    assert_eq!(bye.title, "Bye... See you next round");

    let adv = submit_plan(false, Some(Side::Enemy), 1, 3, 4, &sides(), &link());
    assert_eq!(adv.insert_into, Some(("Round 2".to_string(), Side::Enemy, 2)));
    assert!(adv.mark_winner.is_none() && adv.update_battle);
    assert_eq!(adv.title, "Result is here!");
    assert_eq!(
        adv.description,
        "Bob(#B) has won this round!\nThe [bracket](https://discord.com/channels/1/2/3) is updated"
    );
    assert_eq!(
        adv.announcement,
        Some("Bob(#B) has won this round!\n                                The [bracket](https://discord.com/channels/1/2/3) is updated".to_string())
    );

    let champ = submit_plan(false, Some(Side::Caller), 3, 3, 1, &sides(), &link());
    assert!(champ.insert_into.is_none());
    assert_eq!(champ.mark_winner, Some(("Round 3".to_string(), Side::Caller)));
    assert_eq!(champ.description, "CONGRATULATIONS! Ann(#A) IS THE TOURNAMENT CHAMPION!");

    let pending = submit_plan(false, None, 1, 3, 7, &sides(), &link());
    assert!(pending.insert_into.is_none() && pending.mark_winner.is_none() && !pending.update_battle);
    assert_eq!(pending.title, "There are not enough results yet!");
    assert!(pending.announcement.is_none());
}

#[test]
fn opponent_views() {
    match view_opponent_action(false, false, 1, 2, "1", "2", "Heist", None) {
        OpponentView::NoOpponent { title, description } => {
            assert_eq!(title, "An error occurred!");
            assert_eq!(description, "Please run this command later.");
        }
        _ => panic!("expected no opponent"),
    }
    match view_opponent_action(true, true, 1, 2, "1", "2", "Heist", None) {
        OpponentView::Bye { title, .. } => {
            assert_eq!(title, "Congratulations! You are the bye player for this round!")
        }
        _ => panic!("expected a bye"),
    }
    match view_opponent_action(true, false, 1, 2, "1", "2", "Heist", None) {
        OpponentView::Brief(t) => assert!(t.starts_with("# Round 1 - Match 2\n")),
        _ => panic!("expected a briefing"),
    }
}

#[test]
fn region_disqualify_menu() {
    let s = DisqState { region: None, user_id: None };
    let (s, step) = disqualify_step(s, "EU");
    assert_eq!(step, DisqStep::AskId);
    assert_eq!(s.region, Some(Region::EU));
    let (s, step) = disqualify_step(s, "open_modal");
    assert_eq!(step, DisqStep::OpenForm);
    assert_eq!(s.region, Some(Region::EU));
    let (_, step) = disqualify_step(s, "other");
    assert_eq!(step, DisqStep::Ignore);
    assert_eq!(
        disqualified_text("Ann", "#A", "42", "Round 1"),
        "Successfully disqualified player: Ann(#A) with respective Discord <@42> at round Round 1"
    );
}

#[test]
fn deregistration() {
    assert_eq!(deregister_action("Confirm"), DeregisterAction::Confirm);
    assert_eq!(deregister_action("Cancel"), DeregisterAction::Cancel);
    assert_eq!(deregister_reply(DeregisterAction::Cancel).0, "**Deregistration cancelled!**");
    assert_eq!(
        deregister_prompt("Ann", "#A", Region::EU),
        "You are about to deregister from the tournament. Below information are what you told us!\nYour account name: **Ann**\nWith your respective tag: **#A**\nAnd you are in the following region: **Europe**"
    );
}

#[test]
fn paging_buttons_lead_to_their_actions() {
    let buttons = paginate_buttons(9);
    assert_eq!(buttons.len(), 4);
    assert_eq!(buttons[3].label, "Compact");
    assert_eq!(paginate_step(0, 2, &buttons[3].id, 9), PageAction::Download);
    assert_eq!(paginate_step(0, 2, &buttons[2].id, 9), PageAction::Download);
    assert!(buttons[2].disabled);
}

#[test]
fn chunks_concatenate_back() {
    let v: Vec<u32> = (0..23).collect();
    let pieces = chunk(&v, 5);
    assert_eq!(pieces.len(), (23 + 4) / 5);
    assert_eq!(pieces.concat(), v);
    for p in &pieces[..pieces.len() - 1] {
        assert_eq!(p.len(), 5);
    }
    assert_eq!(pieces.last().unwrap().len(), 3);
}

fn waiting(id: i32, n: &str) -> WaitingPlayer {
    WaitingPlayer { match_id: id, discord_id: n.to_string(), name: n.to_string(), tag: format!("#{}", n) }
}

#[test]
fn unfinished_list_sorted_with_error_entries() {
    let ids = vec![Some(2), Some(1), Some(2), Some(3), None, Some(1)];
    let players = vec![waiting(2, "a"), waiting(1, "b"), waiting(2, "c"), waiting(3, "d"), waiting(0, "e"), waiting(1, "f")];
    let records: Vec<String> = (0..6).map(|i| format!("record {}", i)).collect();
    let list = false_battles(&ids, &players, &records);
    assert_eq!(
        list,
        vec![
            "**Some battles are not finished!**\n# Match 1 \n<@b> - <@f>\nb(#b) - f(#f)".to_string(),
            "**Some battles are not finished!**\n# Match 2 \n<@a> - <@c>\na(#a) - c(#c)".to_string(),
            "Error reading match record 3".to_string(),
        ]
    );
    // One entry for each of the three matches that occur.
    assert_eq!(list.len(), 3);
}

#[test]
fn texts_sort_like_strings() {
    let v: Vec<String> = ["b", "ab", "a", "", "é", "B"].iter().map(|s| s.to_string()).collect();
    let mut expected = v.clone();
    expected.sort();
    assert_eq!(sort_texts(v), expected);
    assert!(text_le_exec("ab", "b") && !text_le_exec("b", "ab") && text_le_exec("a", "a"));
}

fn png(width: u32, height: u32, px: [u8; 4]) -> Vec<u8> {
    let img = image::RgbaImage::from_pixel(width, height, image::Rgba(px));
    let mut out = Vec::new();
    image::DynamicImage::ImageRgba8(img)
        .write_to(&mut std::io::Cursor::new(&mut out), image::ImageOutputFormat::Png)
        .unwrap();
    out
}

#[test]
fn pictures_from_bytes() {
    let p = picture_from_bytes(&png(3, 2, [1, 2, 3, 255])).unwrap();
    assert_eq!((p.width, p.height), (3, 2));
    assert_eq!(p.pixels, vec![[1, 2, 3, 255]; 6]);
    assert!(picture_from_bytes(b"not a picture").is_none());
    let mut sized = CustomImage::new("https://x/profile/1.png".to_string(), Some(4), Some(4));
    let r = custom_image_from_bytes(&mut sized, &png(2, 2, [9, 9, 9, 255])).unwrap();
    assert_eq!((r.width, r.height, r.pixels.len()), (4, 4, 16));
    let mut free = CustomImage::new("https://x/event/1.png".to_string(), None, Some(4));
    let r = custom_image_from_bytes(&mut free, &png(2, 3, [9, 9, 9, 255])).unwrap();
    assert_eq!((r.width, r.height), (2, 3));
    assert_eq!((free.width, free.height), (Some(2), Some(3)));
}

#[test]
fn text_renderer_answers() {
    assert_eq!(text_picture_from_output(&[0xff, 0xfe]).err(), Some(TextError::NotText));
    assert_eq!(text_picture_from_output(b"short").err(), Some(TextError::TooShort));
    let bad = vec![b'!'; 120];
    assert_eq!(text_picture_from_output(&bad).err(), Some(TextError::BadBase64));
    let not_png = base64::engine::general_purpose::STANDARD.encode(vec![7u8; 120]);
    assert_eq!(text_picture_from_output(not_png.as_bytes()).err(), Some(TextError::BadImage));
    let good = format!("{}\n", base64::engine::general_purpose::STANDARD.encode(png(5, 1, [4, 4, 4, 255])));
    let p = text_picture_from_output(good.as_bytes()).unwrap();
    assert_eq!((p.width, p.height), (5, 1));
}

fn pic(width: u32, height: u32, px: [u8; 4]) -> Picture {
    Picture { width, height, pixels: vec![px; (width * height) as usize] }
}

#[test]
fn half_turns_reverse_pixels() {
    let p = Picture { width: 3, height: 1, pixels: vec![[1, 0, 0, 0], [2, 0, 0, 0], [3, 0, 0, 0]] };
    let r = rotate180(&p);
    assert_eq!(r.pixels, vec![[3, 0, 0, 0], [2, 0, 0, 0], [1, 0, 0, 0]]);
}

#[test]
fn pre_battle_picture() {
    let grey = [10, 10, 10, 255];
    let art = BattleArt {
        bg: pic(800, 400, grey),
        versus: pic(300, 300, [255, 0, 0, 255]),
        icon1: pic(20, 20, [0, 255, 0, 255]),
        icon2: pic(20, 20, [0, 0, 255, 255]),
        name1: pic(10, 5, [1, 1, 1, 255]),
        name2: pic(10, 5, [2, 2, 2, 255]),
        tag1: pic(8, 5, [3, 3, 3, 255]),
        tag2: pic(8, 5, [4, 4, 4, 255]),
        title_icon: pic(10, 10, [5, 5, 5, 255]),
        upper_title: pic(30, 10, [6, 6, 6, 255]),
        lower_title: pic(30, 10, [7, 7, 7, 255]),
        mode_icon: pic(10, 10, [8, 8, 8, 255]),
        mode_text: pic(40, 10, [9, 9, 9, 255]),
    };
    let out = compose_battle_image(art);
    assert_eq!((out.width, out.height), (800, 400));
    assert_eq!(out.pixels[200 * 800 + 400], [255, 0, 0, 255]);
    assert_eq!(out.pixels[200 * 800 + 55], [0, 255, 0, 255]);
    assert_eq!(out.pixels[200 * 800 + 800 - 55], [0, 0, 255, 255]);
    assert_eq!(out.pixels[200 * 800 + 300], grey);
}

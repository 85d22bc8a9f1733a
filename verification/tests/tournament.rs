use dbc_bot::host::detail::{detail_step, term};
use dbc_bot::host::download::{chunk, compact_step};
use dbc_bot::host::next::{paginate_step, PageAction};
use dbc_bot::host::setup::{
    plan_tournament, setup_progress, tournament_rounds, Plan, SetupError, SetupStage, MINIMUM_PLAYERS,
};
use dbc_bot::players::submit::{get_result, submit_outcome, BattleRecord, Outcome, Side};

fn battle(result: &str, mode: &str, map: &str, p1: &str, p2: &str) -> BattleRecord {
    BattleRecord {
        battle_type: "friendly".to_string(),
        mode: mode.to_string(),
        map: map.to_string(),
        player1: p1.to_string(),
        player2: p2.to_string(),
        result: result.to_string(),
    }
}

#[test]
fn first_to_two_wins_oldest_first() {
    // The log holds the newest battle first.
    let logs = vec![
        battle("defeat", "gemGrab", "Hard Rock Mine", "#AAA", "#BBB"),
        battle("victory", "gemGrab", "Hard Rock Mine", "#AAA", "#BBB"),
        battle("victory", "gemGrab", "Hard Rock Mine", "#BBB", "#AAA"),
    ];
    assert_eq!(get_result("Gem Grab", "hard rock mine", "#AAA", "#BBB", &logs), Some(Side::Caller));
}

#[test]
fn two_defeats_decide_for_the_enemy() {
    let logs = vec![
        battle("defeat", "heist", "", "#AAA", "#BBB"),
        battle("victory", "heist", "", "#AAA", "#BBB"),
        battle("defeat", "heist", "", "#AAA", "#BBB"),
    ];
    assert_eq!(get_result("heist", "", "#AAA", "#BBB", &logs), Some(Side::Enemy));
}

#[test]
fn battles_that_do_not_count_are_skipped() {
    let mut ranked = battle("victory", "heist", "", "#AAA", "#BBB");
    ranked.battle_type = "ranked".to_string();
    let logs = vec![
        ranked,
        battle("victory", "bounty", "", "#AAA", "#BBB"),
        battle("victory", "heist", "", "#AAA", "#CCC"),
        battle("victory", "heist", "", "#AAA", "#BBB"),
    ];
    assert_eq!(get_result("heist", "", "#AAA", "#BBB", &logs), None);
    assert_eq!(get_result("heist", "", "#AAA", "#BBB", &Vec::new()), None);
}

#[test]
fn battles_after_the_second_win_do_not_matter() {
    // Oldest first: victory, victory, defeat, defeat.
    let logs = vec![
        battle("defeat", "heist", "", "#AAA", "#BBB"),
        battle("defeat", "heist", "", "#AAA", "#BBB"),
        battle("victory", "heist", "", "#AAA", "#BBB"),
        battle("victory", "heist", "", "#AAA", "#BBB"),
    ];
    assert_eq!(get_result("heist", "", "#AAA", "#BBB", &logs), Some(Side::Caller));
}

#[test]
fn one_win_each_is_undecided() {
    let logs = vec![
        battle("victory", "heist", "", "#AAA", "#BBB"),
        battle("defeat", "heist", "", "#AAA", "#BBB"),
        battle("draw", "heist", "", "#AAA", "#BBB"),
    ];
    assert_eq!(get_result("heist", "", "#AAA", "#BBB", &logs), None);
}

#[test]
fn tags_with_o_for_zero_still_count() {
    let logs = vec![
        battle("victory", "heist", "", "#A0A", "#BBB"),
        battle("victory", "heist", "", "#AOA", "#BBB"),
    ];
    assert_eq!(get_result("heist", "", "#AOA", "#BBB", &logs), Some(Side::Caller));
}

#[test]
fn submission_outcomes() {
    assert_eq!(submit_outcome(true, None, 1, 3), Outcome::Bye);
    assert_eq!(submit_outcome(false, Some(Side::Caller), 1, 3), Outcome::Advance(Side::Caller));
    assert_eq!(submit_outcome(false, Some(Side::Enemy), 3, 3), Outcome::Champion(Side::Enemy));
    assert_eq!(submit_outcome(false, None, 2, 3), Outcome::Pending);
}

#[test]
fn tournament_plans() {
    assert_eq!(MINIMUM_PLAYERS, 3);
    assert_eq!(plan_tournament(2), Err(SetupError::NotEnoughPlayers));
    assert_eq!(plan_tournament(3), Ok(Plan { rounds: 2, byes: 1 }));
    assert_eq!(plan_tournament(4), Ok(Plan { rounds: 2, byes: 0 }));
    assert_eq!(plan_tournament(5), Ok(Plan { rounds: 3, byes: 3 }));
    assert_eq!(plan_tournament(1024), Ok(Plan { rounds: 10, byes: 0 }));
    assert_eq!(plan_tournament(1025), Ok(Plan { rounds: 11, byes: 1023 }));
    assert_eq!(tournament_rounds(17), 5);
}

#[test]
fn byes_fill_the_bracket() {
    for count in 3..200 {
        let plan = plan_tournament(count).unwrap();
        assert_eq!(plan.byes + count, 1 << plan.rounds);
        assert!(plan.byes < count);
    }
}

#[test]
fn phase_terms() {
    assert_eq!(term(true), "Open");
    assert_eq!(term(false), "Closed");
}

#[test]
fn detail_view_wraps_around() {
    assert_eq!(detail_step(1, 3, "next"), Some(2));
    assert_eq!(detail_step(3, 3, "next"), Some(1));
    assert_eq!(detail_step(1, 3, "previous"), Some(3));
    assert_eq!(detail_step(2, 3, "other"), None);
    for i in 1..=3 {
        let n = detail_step(i, 3, "next").unwrap();
        assert_eq!(detail_step(n, 3, "previous"), Some(i));
    }
}

#[test]
fn compact_list_wraps_around() {
    assert_eq!(compact_step(0, 4, "prev"), Some(3));
    assert_eq!(compact_step(3, 4, "next"), Some(0));
    assert_eq!(compact_step(1, 4, "next"), Some(2));
    assert_eq!(compact_step(1, 4, "close"), None);
    for i in 0..4 {
        let n = compact_step(i, 4, "next").unwrap();
        assert_eq!(compact_step(n, 4, "prev"), Some(i));
    }
}

#[test]
fn paging_buttons() {
    assert_eq!(paginate_step(0, 3, "77next", 77), PageAction::Show(1));
    assert_eq!(paginate_step(2, 3, "77next", 77), PageAction::Show(0));
    assert_eq!(paginate_step(0, 3, "77prev", 77), PageAction::Show(2));
    assert_eq!(paginate_step(0, 3, "77download", 77), PageAction::Download);
    assert_eq!(paginate_step(0, 3, "77compact", 77), PageAction::Compact);
    assert_eq!(paginate_step(0, 3, "78next", 77), PageAction::Ignore);
    for p in 0..3 {
        if let PageAction::Show(n) = paginate_step(p, 3, "5next", 5) {
            assert_eq!(paginate_step(n, 3, "5prev", 5), PageAction::Show(p));
        } else {
            panic!("next must show a page");
        }
    }
}

#[test]
fn chunks_cover_the_slice() {
    let v = [1, 2, 3, 4, 5, 6, 7];
    let pieces = chunk(&v, 3);
    assert_eq!(pieces.len(), 3);
    assert_eq!(pieces[0], &[1, 2, 3]);
    assert_eq!(pieces[1], &[4, 5, 6]);
    assert_eq!(pieces[2], &[7]);
    let empty: [u8; 0] = [];
    assert_eq!(chunk(&empty, 4).len(), 0);
    for k in 0..v.len() {
        assert_eq!(pieces[k / 3][k % 3], v[k]);
    }
}

#[test]
fn setup_progress_texts() {
    assert_eq!(
        setup_progress(SetupStage::Opened),
        "<:tick:1187839626338111600> Closed! Registration is now closed!\n<:tick:1187839626338111600> Opened! Tournament is opened!"
    );
    let too_few = setup_progress(SetupStage::TooFew { count: 2 });
    assert!(too_few.ends_with("\n<:tick:1187839626338111600> Counted! Players:  2\n<:sad:1187843167760949348> Not enough players to start the tournament! Aborting start!"));
    let done = setup_progress(SetupStage::Done { count: 5, rounds: 3, byes: 3 });
    assert_eq!(
        done,
        "<:tick:1187839626338111600> Closed! Registration is now closed!\n<:tick:1187839626338111600> Opened! Tournament is opened!\n<:tick:1187839626338111600> Counted! Players:  5\n<:tick:1187839626338111600> Calculated! Rounds: 3\n<:info:1187845402163167363> Byes: 3\n<:tick:1187839626338111600> Done! First round is set!"
    );
    let calc = setup_progress(SetupStage::Calculating { count: 9 });
    assert!(calc.ends_with("Players:  9\n<a:loading:1187839622680690689> Calculating rounds..."));
}

use crate::players::submit::Side;
use crate::players::view::{brief_map, brief_text, match_brief};
use crate::text::{int_decimal, nat_decimal, push_decimal, push_signed_decimal};
use vstd::prelude::*;
use vstd::string::*;

verus! {

/// The players of a match as the submission shows them: name and tag of each side.
pub struct MatchSides {
    pub caller_name: String,
    pub caller_tag: String,
    pub enemy_name: String,
    pub enemy_tag: String,
}

/// Where the bracket message is: server, channel and message ids.
pub struct BracketLink {
    pub guild: u64,
    pub channel: String,
    pub message: String,
}

/// What submitting a result writes and replies.
pub struct SubmitPlan {
    /// The collection the named side is inserted into (for the next round), and the
    /// match it plays there.
    pub insert_into: Option<(String, Side, i32)>,
    /// The collection in which the named side is marked `winner: true`.
    pub mark_winner: Option<(String, Side)>,
    /// Whether the match is marked as played and the bracket redrawn.
    pub update_battle: bool,
    /// The reply's title.
    pub title: String,
    /// The reply's text.
    pub description: String,
    /// The text announced in the results channel, if any.
    pub announcement: Option<String>,
}

/// The name and tag of a side.
pub open spec fn side_name(s: MatchSides, side: Side) -> Seq<char> {
    match side {
        Side::Caller => s.caller_name@ + "("@ + s.caller_tag@ + ")"@,
        Side::Enemy => s.enemy_name@ + "("@ + s.enemy_tag@ + ")"@,
    }
}

/// The link to the bracket message.
pub open spec fn bracket_url(b: BracketLink) -> Seq<char> {
    "https://discord.com/channels/"@ + nat_decimal(b.guild as nat) + "/"@ + b.channel@ + "/"@
        + b.message@
}

/// The reply when a side wins a round before the last.
pub open spec fn advance_text(s: MatchSides, side: Side, b: BracketLink, gap: Seq<char>) -> Seq<char> {
    side_name(s, side) + " has won this round!\n"@ + gap + "The [bracket]("@ + bracket_url(b)
        + ") is updated"@
}

/// The reply when a side wins the last round.
pub open spec fn champion_text(s: MatchSides, side: Side) -> Seq<char> {
    "CONGRATULATIONS! "@ + side_name(s, side) + " IS THE TOURNAMENT CHAMPION!"@
}

/// The match that the winner of match `m` plays in the next round: `(m + 1) / 2`, the
/// division rounding toward zero.
pub open spec fn next_match_id(m: int) -> int {
    if m + 1 >= 0 {
        (m + 1) / 2
    } else {
        -((-(m + 1)) / 2)
    }
}

/// The collection of round `r`.
pub open spec fn round_name_of(r: int) -> Seq<char> {
    "Round "@ + int_decimal(r)
}

/// Whether `p` is the plan of a submission for match `match_id` in round `round` of
/// `total`: a bye puts the caller into the next round; a winner before the last round goes
/// into the next round (in either case into match `next_match_id(match_id)`),
/// a winner of the last round is marked winner in it, and either way the match is marked
/// played and the winner named; with no winner yet nothing is written.
pub open spec fn submit_plan_is(
    p: SubmitPlan,
    enemy_is_mannequin: bool,
    winner: Option<Side>,
    round: i32,
    total: i32,
    match_id: i32,
    s: MatchSides,
    b: BracketLink,
) -> bool {
    if enemy_is_mannequin {
        &&& p.insert_into matches Some((c, Side::Caller, m)) && c@ == round_name_of(round + 1)
            && m == next_match_id(match_id as int)
        &&& p.mark_winner is None
        &&& p.update_battle
        &&& p.title@ == "Bye... See you next round"@
        &&& p.description@ == "\n            Congratulation, you pass this round!"@
        &&& p.announcement is None
    } else {
        match winner {
            Some(w) => if round < total {
                &&& p.insert_into matches Some((c, side, m)) && c@ == round_name_of(round + 1) && side == w
                    && m == next_match_id(match_id as int)
                &&& p.mark_winner is None
                &&& p.update_battle
                &&& p.title@ == "Result is here!"@
                &&& p.description@ == advance_text(s, w, b, ""@)
                &&& p.announcement matches Some(a) && a@ == advance_text(
                    s,
                    w,
                    b,
                    "                                "@,
                )
            } else {
                &&& p.insert_into is None
                &&& p.mark_winner matches Some((c, side)) && c@ == round_name_of(round as int) && side == w
                &&& p.update_battle
                &&& p.title@ == "Result is here!"@
                &&& p.description@ == champion_text(s, w)
                &&& p.announcement matches Some(a) && a@ == champion_text(s, w)
            },
            None => {
                &&& p.insert_into is None
                &&& p.mark_winner is None
                &&& !p.update_battle
                &&& p.title@ == "There are not enough results yet!"@
                &&& p.description@
                    == "As the result is recorded nearly in real-time, please try again later. It may take up to 30 seconds for a new battle to appear in the battlelog"@
                &&& p.announcement is None
            },
        }
    }
}

/// A law of submitting: once a match in round `round` of a `total`-round tournament is
/// decided, the winner goes on into the collection of round `round + 1`, with the text
/// that they won the round, exactly when the round is before the last (`round < total`);
/// only in the last round (`round >= total`) is nobody moved on and the winner marked
/// and announced as champion in the collection of their own round.
pub proof fn lemma_champion_only_in_last_round(
    p: SubmitPlan,
    w: Side,
    round: i32,
    total: i32,
    match_id: i32,
    s: MatchSides,
    b: BracketLink,
)
    requires
        submit_plan_is(p, false, Some(w), round, total, match_id, s, b),
    ensures
        (p.insert_into is Some) == (round < total),
        (p.mark_winner is Some) == (round >= total),
        p.update_battle,
        round < total ==> (p.insert_into matches Some((c, side, _)) && side == w && c@ == "Round "@
            + int_decimal(round + 1) && p.description@ == side_name(s, w) + " has won this round!\n"@
            + "The [bracket]("@ + bracket_url(b) + ") is updated"@),
        round >= total ==> (p.mark_winner matches Some((c, side)) && side == w && c@ == "Round "@
            + int_decimal(round as int) && p.description@ == "CONGRATULATIONS! "@ + side_name(s, w)
            + " IS THE TOURNAMENT CHAMPION!"@),
{
    reveal_strlit("");
    assert(advance_text(s, w, b, ""@) =~= side_name(s, w) + " has won this round!\n"@
        + "The [bracket]("@ + bracket_url(b) + ") is updated"@);
}

/// A law of submitting: a bye moves the caller on into the next round and crowns nobody,
/// and with no winner yet nothing is written.
pub proof fn lemma_bye_and_pending_plans(
    p: SubmitPlan,
    q: SubmitPlan,
    winner: Option<Side>,
    round: i32,
    total: i32,
    match_id: i32,
    s: MatchSides,
    b: BracketLink,
)
    requires
        submit_plan_is(p, true, winner, round, total, match_id, s, b),
        submit_plan_is(q, false, None, round, total, match_id, s, b),
    ensures
        p.insert_into matches Some((c, side, _)) && side == Side::Caller && c@ == "Round "@
            + int_decimal(round + 1),
        p.mark_winner is None,
        q.insert_into is None && q.mark_winner is None && !q.update_battle && q.announcement is None,
{
}

/// A law of the bracket: the winners of matches `2k - 1` and `2k` of a round meet in
/// match `k` of the next round.
pub proof fn lemma_next_match_pairs(k: int)
    requires
        k >= 1,
    ensures
        next_match_id(2 * k - 1) == k,
        next_match_id(2 * k) == k,
{
}

fn push_side(out: &mut String, s: &MatchSides, side: Side)
    ensures
        final(out)@ == old(out)@ + side_name(*s, side),
{
    match side {
        Side::Caller => {
            out.append(s.caller_name.as_str());
            out.append("(");
            out.append(s.caller_tag.as_str());
            out.append(")");
        },
        Side::Enemy => {
            out.append(s.enemy_name.as_str());
            out.append("(");
            out.append(s.enemy_tag.as_str());
            out.append(")");
        },
    }
    assert(final(out)@ =~= old(out)@ + side_name(*s, side));
}

fn advance(s: &MatchSides, side: Side, b: &BracketLink, gap: &str) -> (r: String)
    ensures
        r@ == advance_text(*s, side, *b, gap@),
{
    let mut out = String::new();
    push_side(&mut out, s, side);
    out.append(" has won this round!\n");
    out.append(gap);
    out.append("The [bracket](");
    out.append("https://discord.com/channels/");
    push_decimal(&mut out, b.guild);
    out.append("/");
    out.append(b.channel.as_str());
    out.append("/");
    out.append(b.message.as_str());
    out.append(") is updated");
    assert(out@ =~= advance_text(*s, side, *b, gap@));
    out
}

fn champion(s: &MatchSides, side: Side) -> (r: String)
    ensures
        r@ == champion_text(*s, side),
{
    let mut out = String::from_str("CONGRATULATIONS! ");
    push_side(&mut out, s, side);
    out.append(" IS THE TOURNAMENT CHAMPION!");
    assert(out@ =~= champion_text(*s, side));
    out
}

fn round_collection_of(r: i32) -> (c: String)
    ensures
        c@ == round_name_of(r as int),
{
    let mut c = String::from_str("Round ");
    push_signed_decimal(&mut c, r as i64);
    c
}

fn next_match(m: i32) -> (r: i32)
    ensures
        r == next_match_id(m as int),
{
    let n: i64 = m as i64 + 1;
    if n >= 0 {
        (n / 2) as i32
    } else {
        let k: i64 = -n;
        -((k / 2) as i32)
    }
}

/// Plans what a submission writes and replies (see `submit_plan_is`), from whether the
/// opponent is a bye, the winner the battle log shows, the round and the match.
pub fn submit_plan(
    enemy_is_mannequin: bool,
    winner: Option<Side>,
    round: i32,
    total: i32,
    match_id: i32,
    sides: &MatchSides,
    bracket: &BracketLink,
) -> (p: SubmitPlan)
    requires
        enemy_is_mannequin ==> round < i32::MAX,
    ensures
        submit_plan_is(p, enemy_is_mannequin, winner, round, total, match_id, *sides, *bracket),
{
    if enemy_is_mannequin {
        return SubmitPlan {
            insert_into: Some((round_collection_of(round + 1), Side::Caller, next_match(match_id))),
            mark_winner: None,
            update_battle: true,
            title: String::from_str("Bye... See you next round"),
            description: String::from_str("\n            Congratulation, you pass this round!"),
            announcement: None,
        };
    }
    match winner {
        Some(w) => {
            if round < total {
                SubmitPlan {
                    insert_into: Some((round_collection_of(round + 1), w, next_match(match_id))),
                    mark_winner: None,
                    update_battle: true,
                    title: String::from_str("Result is here!"),
                    description: advance(sides, w, bracket, ""),
                    announcement: Some(advance(sides, w, bracket, "                                ")),
                }
            } else {
                SubmitPlan {
                    insert_into: None,
                    mark_winner: Some((round_collection_of(round), w)),
                    update_battle: true,
                    title: String::from_str("Result is here!"),
                    description: champion(sides, w),
                    announcement: Some(champion(sides, w)),
                }
            }
        },
        None => SubmitPlan {
            insert_into: None,
            mark_winner: None,
            update_battle: false,
            title: String::from_str("There are not enough results yet!"),
            description: String::from_str(
                "As the result is recorded nearly in real-time, please try again later. It may take up to 30 seconds for a new battle to appear in the battlelog",
            ),
            announcement: None,
        },
    }
}

/// What the opponent view shows.
pub enum OpponentView {
    /// The opponent is a bye: a title, a text and a footer; no picture is made.
    Bye { title: String, description: String, footer: String },
    /// No opponent was found: a title and a text; no picture is made.
    NoOpponent { title: String, description: String },
    /// The briefing of the match, shown with the pre-battle picture.
    Brief(String),
}

/// The bye footer.
pub open spec fn bye_footer() -> Seq<char> {
    "According to Dictionary.com, in a tournament, a bye is the preferential status of a player or team not paired with a competitor in an early round and thus automatically advanced to play in the next round."@
}

/// Decides what the opponent view shows: the bye notice for a mannequin, the error notice
/// when no opponent is found, the briefing otherwise.
pub fn view_opponent_action(
    found: bool,
    enemy_is_mannequin: bool,
    round: i32,
    match_id: i32,
    player_id: &str,
    enemy_id: &str,
    mode: &str,
    map: Option<&str>,
) -> (r: OpponentView)
    ensures
        !found ==> (r matches OpponentView::NoOpponent { title, description } && title@
            == "An error occurred!"@ && description@ == "Please run this command later."@),
        found && enemy_is_mannequin ==> (r matches OpponentView::Bye { title, description, footer }
            && title@ == "Congratulations! You are the bye player for this round!"@
            && description@ == "Please run the bot again to submit the result!"@ && footer@
            == bye_footer()),
        found && !enemy_is_mannequin ==> (r matches OpponentView::Brief(t) && t@ == brief_text(
            round,
            match_id,
            player_id@,
            enemy_id@,
            mode@,
            brief_map(
                match map {
                    Some(m) => Some(m@),
                    None => None,
                },
            ),
        )),
{
    if !found {
        OpponentView::NoOpponent {
            title: String::from_str("An error occurred!"),
            description: String::from_str("Please run this command later."),
        }
    } else if enemy_is_mannequin {
        OpponentView::Bye {
            title: String::from_str("Congratulations! You are the bye player for this round!"),
            description: String::from_str("Please run the bot again to submit the result!"),
            footer: String::from_str(
                "According to Dictionary.com, in a tournament, a bye is the preferential status of a player or team not paired with a competitor in an early round and thus automatically advanced to play in the next round.",
            ),
        }
    } else {
        OpponentView::Brief(match_brief(round, match_id, player_id, enemy_id, mode, map))
    }
}

} // verus!

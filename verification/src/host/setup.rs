use crate::text::{int_decimal, nat_decimal, push_decimal, push_signed_decimal};
use vstd::prelude::*;
use vstd::string::*;

verus! {

/// The fewest players a tournament can start with.
pub const MINIMUM_PLAYERS: i32 = 3;

/// Two to the power `n`.
pub open spec fn two_pow(n: nat) -> nat
    decreases n,
{
    if n == 0 {
        1
    } else {
        2 * two_pow((n - 1) as nat)
    }
}

/// `r` rounds are what a single-elimination bracket needs for `count` players:
/// the fewest rounds whose bracket has room for all of them (`⌈log2 count⌉`; none for one player).
pub open spec fn is_round_count(count: int, r: nat) -> bool {
    &&& count <= two_pow(r)
    &&& (r == 0 || two_pow((r - 1) as nat) < count)
}

/// Powers of two grow with the exponent.
pub proof fn lemma_two_pow_monotonic(a: nat, b: nat)
    requires
        a <= b,
    ensures
        two_pow(a) <= two_pow(b),
        1 <= two_pow(a),
    decreases b,
{
    if b > 0 && a < b {
        lemma_two_pow_monotonic(a, (b - 1) as nat);
    } else if a > 0 {
        lemma_two_pow_monotonic((a - 1) as nat, (a - 1) as nat);
    }
}

proof fn lemma_two_pow_30()
    ensures
        two_pow(30) == 1073741824,
{
    reveal_with_fuel(two_pow, 31);
}

/// The number of rounds of a bracket for `count` players.
pub fn tournament_rounds(count: i32) -> (r: u32)
    requires
        count <= 1073741824,
    ensures
        is_round_count(count as int, r as nat),
        r <= 30,
{
    let mut r: u32 = 0;
    let mut p: i64 = 1;
    while p < count as i64
        invariant
            1 <= p <= 1073741824,
            p as int == two_pow(r as nat),
            r == 0 || two_pow((r - 1) as nat) < count,
            count <= 1073741824,
            r <= 30,
        decreases 1073741824 - p,
    {
        proof {
            lemma_two_pow_30();
            if r >= 30 {
                lemma_two_pow_monotonic(30, r as nat);
            }
            lemma_two_pow_monotonic((r + 1) as nat, 30);
        }
        assert(two_pow((r + 1) as nat) == 2 * two_pow(r as nat));
        p = p * 2;
        r = r + 1;
    }
    r
}

/// Why a tournament did not start.
#[derive(Debug, Clone, Copy, PartialEq, Eq, Structural)]
pub enum SetupError {
    /// Fewer than `MINIMUM_PLAYERS` players registered.
    NotEnoughPlayers,
}

/// How the first round is filled: the rounds of the bracket and the byes that make the
/// player count up to a full bracket.
#[derive(Debug, Clone, Copy, PartialEq, Eq, Structural)]
pub struct Plan {
    pub rounds: u32,
    pub byes: i32,
}

/// Plans a tournament for `count` registered players: it needs at least `MINIMUM_PLAYERS`;
/// then `rounds` is `⌈log2 count⌉` and `byes` is `2^rounds - count`.
pub fn plan_tournament(count: i32) -> (r: Result<Plan, SetupError>)
    requires
        count <= 1073741824,
    ensures
        count < MINIMUM_PLAYERS ==> r == Err::<Plan, SetupError>(SetupError::NotEnoughPlayers),
        count >= MINIMUM_PLAYERS ==> (r matches Ok(p) && is_round_count(count as int, p.rounds as nat)
            && p.byes == two_pow(p.rounds as nat) - count),
{
    if count < MINIMUM_PLAYERS {
        return Err(SetupError::NotEnoughPlayers);
    }
    let rounds = tournament_rounds(count);
    let mut slots: i32 = 1;
    let mut i: u32 = 0;
    while i < rounds
        invariant
            i <= rounds <= 30,
            1 <= slots <= 1073741824,
            slots as int == two_pow(i as nat),
            is_round_count(count as int, rounds as nat),
            count >= MINIMUM_PLAYERS,
        decreases rounds - i,
    {
        proof {
            lemma_two_pow_monotonic((i + 1) as nat, 30);
            lemma_two_pow_30();
        }
        assert(two_pow((i + 1) as nat) == 2 * two_pow(i as nat));
        slots = slots * 2;
        i = i + 1;
    }
    Ok(Plan { rounds, byes: slots - count })
}

/// A law of the bracket: the rounds are determined by the player count, the byes fill the
/// bracket up exactly, and there are fewer byes than players (so every bye meets a player).
pub proof fn lemma_plan_fills_bracket(count: int, r: nat, r2: nat)
    requires
        count >= 2,
        is_round_count(count, r),
        is_round_count(count, r2),
    ensures
        r == r2,
        count + (two_pow(r) - count) == two_pow(r),
        0 <= two_pow(r) - count < count,
{
    if r < r2 {
        lemma_two_pow_monotonic(r, (r2 - 1) as nat);
    } else if r2 < r {
        lemma_two_pow_monotonic(r2, (r - 1) as nat);
    }
    assert(r > 0);
}

} // verus!

verus! {

/// The steps of starting a tournament, with what is known at each.
#[derive(Debug, Clone, Copy, PartialEq, Eq, Structural)]
pub enum SetupStage {
    /// Registration closed and the tournament opened.
    Opened,
    /// Counting the registered players.
    Counting,
    /// Too few players: the start is abandoned.
    TooFew { count: i32 },
    /// Counted; working out the rounds.
    Calculating { count: i32 },
    /// The rounds are known.
    Calculated { count: i32, rounds: u32 },
    /// The byes are known.
    Byes { count: i32, rounds: u32, byes: i32 },
    /// Setting up the first round.
    SettingRound { count: i32, rounds: u32, byes: i32 },
    /// The first round is set.
    Done { count: i32, rounds: u32, byes: i32 },
}

/// The progress lines of starting a tournament.
pub open spec fn setup_line(k: int) -> Seq<char> {
    if k == 0 {
        "<:tick:1187839626338111600> Closed! Registration is now closed!"@
    } else if k == 1 {
        "<:tick:1187839626338111600> Opened! Tournament is opened!"@
    } else if k == 2 {
        "<a:loading:1187839622680690689> Counting players..."@
    } else if k == 3 {
        "<:tick:1187839626338111600> Counted! Players:  "@
    } else if k == 4 {
        "<:sad:1187843167760949348> Not enough players to start the tournament! Aborting start!"@
    } else if k == 5 {
        "<:info:1187845402163167363> Byes: "@
    } else if k == 6 {
        "<a:loading:1187839622680690689> Calculating rounds..."@
    } else if k == 7 {
        "<:tick:1187839626338111600> Calculated! Rounds: "@
    } else if k == 8 {
        "<a:loading:1187839622680690689> Setting up first round"@
    } else {
        "<:tick:1187839626338111600> Done! First round is set!"@
    }
}

/// The counted, calculated and bye lines that every later stage shows.
pub open spec fn known_lines(count: i32, rounds: u32, byes: i32) -> Seq<char> {
    setup_line(0) + "\n"@ + setup_line(1) + "\n"@ + setup_line(3) + int_decimal(count as int) + "\n"@
        + setup_line(7) + nat_decimal(rounds as nat) + "\n"@ + setup_line(5) + int_decimal(
        byes as int,
    )
}

/// The text shown at a stage of starting a tournament.
pub open spec fn setup_text(stage: SetupStage) -> Seq<char> {
    match stage {
        SetupStage::Opened => setup_line(0) + "\n"@ + setup_line(1),
        SetupStage::Counting => setup_line(0) + "\n"@ + setup_line(1) + "\n"@ + setup_line(2),
        SetupStage::TooFew { count } => setup_line(0) + "\n"@ + setup_line(1) + "\n"@
            + setup_line(2) + "\n"@ + setup_line(3) + int_decimal(count as int) + "\n"@
            + setup_line(4),
        SetupStage::Calculating { count } => setup_line(0) + "\n"@ + setup_line(1) + "\n"@
            + setup_line(3) + int_decimal(count as int) + "\n"@ + setup_line(6),
        SetupStage::Calculated { count, rounds } => setup_line(0) + "\n"@ + setup_line(1) + "\n"@
            + setup_line(3) + int_decimal(count as int) + "\n"@ + setup_line(7) + nat_decimal(
            rounds as nat,
        ),
        SetupStage::Byes { count, rounds, byes } => known_lines(count, rounds, byes),
        SetupStage::SettingRound { count, rounds, byes } => known_lines(count, rounds, byes)
            + "\n"@ + setup_line(8),
        SetupStage::Done { count, rounds, byes } => known_lines(count, rounds, byes) + "\n"@
            + setup_line(9),
    }
}

fn setup_line_of(k: u8) -> (r: &'static str)
    ensures
        r@ == setup_line(k as int),
{
    if k == 0 {
        "<:tick:1187839626338111600> Closed! Registration is now closed!"
    } else if k == 1 {
        "<:tick:1187839626338111600> Opened! Tournament is opened!"
    } else if k == 2 {
        "<a:loading:1187839622680690689> Counting players..."
    } else if k == 3 {
        "<:tick:1187839626338111600> Counted! Players:  "
    } else if k == 4 {
        "<:sad:1187843167760949348> Not enough players to start the tournament! Aborting start!"
    } else if k == 5 {
        "<:info:1187845402163167363> Byes: "
    } else if k == 6 {
        "<a:loading:1187839622680690689> Calculating rounds..."
    } else if k == 7 {
        "<:tick:1187839626338111600> Calculated! Rounds: "
    } else if k == 8 {
        "<a:loading:1187839622680690689> Setting up first round"
    } else {
        "<:tick:1187839626338111600> Done! First round is set!"
    }
}

fn push_known(s: &mut String, count: i32, rounds: u32, byes: i32)
    ensures
        final(s)@ == old(s)@ + known_lines(count, rounds, byes),
{
    s.append(setup_line_of(0));
    s.append("\n");
    s.append(setup_line_of(1));
    s.append("\n");
    s.append(setup_line_of(3));
    push_signed_decimal(s, count as i64);
    s.append("\n");
    s.append(setup_line_of(7));
    push_decimal(s, rounds as u64);
    s.append("\n");
    s.append(setup_line_of(5));
    push_signed_decimal(s, byes as i64);
    assert(final(s)@ =~= old(s)@ + known_lines(count, rounds, byes));
}

/// Writes the text shown at a stage of starting a tournament (see `setup_text`).
pub fn setup_progress(stage: SetupStage) -> (r: String)
    ensures
        r@ == setup_text(stage),
{
    let mut s = String::new();
    match stage {
        SetupStage::Byes { count, rounds, byes } => {
            push_known(&mut s, count, rounds, byes);
        },
        SetupStage::SettingRound { count, rounds, byes } => {
            push_known(&mut s, count, rounds, byes);
            s.append("\n");
            s.append(setup_line_of(8));
        },
        SetupStage::Done { count, rounds, byes } => {
            push_known(&mut s, count, rounds, byes);
            s.append("\n");
            s.append(setup_line_of(9));
        },
        _ => {
            s.append(setup_line_of(0));
            s.append("\n");
            s.append(setup_line_of(1));
            match stage {
                SetupStage::Counting => {
                    s.append("\n");
                    s.append(setup_line_of(2));
                },
                SetupStage::TooFew { count } => {
                    s.append("\n");
                    s.append(setup_line_of(2));
                    s.append("\n");
                    s.append(setup_line_of(3));
                    push_signed_decimal(&mut s, count as i64);
                    s.append("\n");
                    s.append(setup_line_of(4));
                },
                SetupStage::Calculating { count } => {
                    s.append("\n");
                    s.append(setup_line_of(3));
                    push_signed_decimal(&mut s, count as i64);
                    s.append("\n");
                    s.append(setup_line_of(6));
                },
                SetupStage::Calculated { count, rounds } => {
                    s.append("\n");
                    s.append(setup_line_of(3));
                    push_signed_decimal(&mut s, count as i64);
                    s.append("\n");
                    s.append(setup_line_of(7));
                    push_decimal(&mut s, rounds as u64);
                },
                _ => {},
            }
        },
    }
    assert(s@ =~= setup_text(stage));
    s
}

} // verus!

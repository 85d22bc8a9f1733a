use vstd::prelude::*;
use vstd::string::*;
use vstd::utf8::{encode_scalar, encode_utf8};
use crate::text::{same_text, push_char};

verus! {

/// What `char::is_alphanumeric` answers for `c` (Unicode alphabetic or numeric).
pub uninterp spec fn char_is_alphanumeric(c: char) -> bool;

/// What `char::to_lowercase` yields for `c` (its Unicode lowercase mapping).
pub uninterp spec fn char_lowercase(c: char) -> Seq<char>;

/// Whether `c` is an ASCII letter or digit.
pub open spec fn ascii_alnum(c: char) -> bool {
    ('a' <= c <= 'z') || ('A' <= c <= 'Z') || ('0' <= c <= '9')
}

/// `char::is_alphanumeric`. Claimed: the result is a function of `c`; on ASCII
/// characters it holds exactly of letters and digits, as std documents.
#[verifier::external_body]
fn is_alphanumeric(c: char) -> (r: bool)
    ensures
        r == char_is_alphanumeric(c),
        (c as u32) < 128 ==> (r <==> ascii_alnum(c)),
{
    c.is_alphanumeric()
}

/// `char::to_lowercase`, collected. Claimed: the result is a function of `c`; on an ASCII
/// character it is that character with `A..=Z` mapped to `a..=z`, as std documents.
#[verifier::external_body]
fn to_lowercase(c: char) -> (r: Vec<char>)
    ensures
        r@ == char_lowercase(c),
        (c as u32) < 128 ==> r@ == seq![crate::text::ascii_lower(c)],
{
    c.to_lowercase().collect()
}

/// The text with everything but letters and digits removed, lower-cased.
pub open spec fn normalized(s: Seq<char>) -> Seq<char>
    decreases s.len(),
{
    if s.len() == 0 {
        Seq::empty()
    } else {
        normalized(s.drop_last()) + if char_is_alphanumeric(s.last()) {
            char_lowercase(s.last())
        } else {
            Seq::empty()
        }
    }
}

/// Whether every character of `s` is ASCII.
pub open spec fn all_ascii(s: Seq<char>) -> bool {
    forall|i: int| 0 <= i < s.len() ==> (#[trigger] s[i] as u32) < 128
}

/// The ASCII text with everything but letters and digits removed, lower-cased.
pub open spec fn ascii_normalized(s: Seq<char>) -> Seq<char>
    decreases s.len(),
{
    if s.len() == 0 {
        Seq::empty()
    } else {
        ascii_normalized(s.drop_last()) + if ascii_alnum(s.last()) {
            seq![crate::text::ascii_lower(s.last())]
        } else {
            Seq::empty()
        }
    }
}

fn normalize(s: &str) -> (r: String)
    ensures
        r@ == normalized(s@),
        all_ascii(s@) ==> r@ == ascii_normalized(s@),
{
    let n = s.unicode_len();
    let mut out = String::new();
    let mut i: usize = 0;
    while i < n
        invariant
            n == s@.len(),
            i <= n,
            out@ == normalized(s@.take(i as int)),
            all_ascii(s@) ==> out@ == ascii_normalized(s@.take(i as int)),
        decreases n - i,
    {
        let c = s.get_char(i);
        assert(s@.take(i + 1).drop_last() =~= s@.take(i as int));
        if is_alphanumeric(c) {
            let low = to_lowercase(c);
            let ghost before = out@;
            let mut k: usize = 0;
            while k < low.len()
                invariant
                    k <= low@.len(),
                    out@ == before + low@.take(k as int),
                decreases low@.len() - k,
            {
                push_char(&mut out, low[k]);
                k = k + 1;
                assert(out@ =~= before + low@.take(k as int));
            }
            assert(low@.take(low@.len() as int) =~= low@);
        } else {
            assert(out@ =~= normalized(s@.take(i as int)) + Seq::<char>::empty());
        }
        i = i + 1;
    }
    assert(s@.take(n as int) =~= s@);
    out
}

/// Whether two texts are equal once punctuation is removed and case is ignored.
pub open spec fn strings_match(a: Seq<char>, b: Seq<char>) -> bool {
    normalized(a) == normalized(b)
}

/// Compares two texts with punctuation removed and case ignored. On ASCII texts that
/// means: letters and digits only, letters lower-cased.
pub fn compare_strings(str1: &str, str2: &str) -> (r: bool)
    ensures
        r == strings_match(str1@, str2@),
        all_ascii(str1@) && all_ascii(str2@) ==> r == (ascii_normalized(str1@) == ascii_normalized(
            str2@,
        )),
{
    let a = normalize(str1);
    let b = normalize(str2);
    a == b
}

/// Two characters of a player tag match when equal, or when one is the letter `O` and the
/// other the digit `0`.
pub open spec fn tag_chars_match(a: char, b: char) -> bool {
    a == b || (a == 'O' && b == '0') || (a == '0' && b == 'O')
}

/// Two tags match when every pair of characters up to the shorter one matches and their
/// UTF-8 byte lengths are equal.
pub open spec fn tags_match(a: Seq<char>, b: Seq<char>) -> bool {
    &&& forall|i: int| 0 <= i < a.len() && i < b.len() ==> tag_chars_match(#[trigger] a[i], b[i])
    &&& encode_utf8(a).len() == encode_utf8(b).len()
}

/// Compares two player tags, taking `O` and `0` for each other.
pub fn compare_tag(s1: &str, s2: &str) -> (r: bool)
    ensures
        r == tags_match(s1@, s2@),
{
    let n1 = s1.unicode_len();
    let n2 = s2.unicode_len();
    let n = if n1 < n2 {
        n1
    } else {
        n2
    };
    let mut i: usize = 0;
    let mut all = true;
    while i < n
        invariant
            n1 == s1@.len(),
            n2 == s2@.len(),
            n <= n1,
            n <= n2,
            n == n1 || n == n2,
            i <= n,
            all == (forall|j: int| 0 <= j < i ==> tag_chars_match(#[trigger] s1@[j], s2@[j])),
        decreases n - i,
    {
        let a = s1.get_char(i);
        let b = s2.get_char(i);
        let ok = a == b || (a == 'O' && b == '0') || (a == '0' && b == 'O');
        all = all && ok;
        i = i + 1;
    }
    all && s1.as_bytes().len() == s2.as_bytes().len()
}

/// One battle of a player's battle log, as plain text fields.
pub struct BattleRecord {
    /// The battle type, e.g. `friendly`.
    pub battle_type: String,
    /// The game mode of the event.
    pub mode: String,
    /// The map of the event.
    pub map: String,
    /// The tag of the first player of the first team.
    pub player1: String,
    /// The tag of the first player of the second team.
    pub player2: String,
    /// The result for the log's owner: `victory`, `defeat` or `draw`.
    pub result: String,
}

/// The side of a match that won it.
#[derive(Debug, Clone, Copy, PartialEq, Eq, Structural)]
pub enum Side {
    /// The player who submitted the result.
    Caller,
    /// The opponent.
    Enemy,
}

/// Whether a battle counts for the match between `caller` and `enemy` in `mode`
/// (and on `map`, unless `map` is empty).
pub open spec fn battle_counts(
    log: BattleRecord,
    mode: &str,
    map: &str,
    caller: &str,
    enemy: &str,
) -> bool {
    &&& strings_match(log.battle_type@, "friendly"@)
    &&& strings_match(log.mode@, mode@)
    &&& (map@.len() == 0 || strings_match(log.map@, map@))
    &&& (tags_match(caller@, log.player1@) || tags_match(caller@, log.player2@))
    &&& (tags_match(enemy@, log.player1@) || tags_match(enemy@, log.player2@))
}

/// The results of the battles that count, in log order (newest first).
pub open spec fn counted_results(
    logs: Seq<BattleRecord>,
    mode: &str,
    map: &str,
    caller: &str,
    enemy: &str,
) -> Seq<Seq<char>>
    decreases logs.len(),
{
    if logs.len() == 0 {
        Seq::empty()
    } else {
        let rest = counted_results(logs.drop_last(), mode, map, caller, enemy);
        if battle_counts(logs.last(), mode, map, caller, enemy) {
            rest.push(logs.last().result@)
        } else {
            rest
        }
    }
}

/// First to two wins: goes through results oldest first, counting victories and defeats
/// of the caller from `wins` and `losses`; two defeats (with fewer than two victories)
/// decide for the enemy, two victories for the caller.
pub open spec fn first_to_two(oldest_first: Seq<Seq<char>>, wins: nat, losses: nat) -> Option<Side>
    decreases oldest_first.len(),
{
    if oldest_first.len() == 0 {
        None
    } else {
        let r = oldest_first[0];
        let w = if r == "victory"@ {
            wins + 1
        } else {
            wins
        };
        let l = if r == "defeat"@ {
            losses + 1
        } else {
            losses
        };
        if l == 2 && w < 2 {
            Some(Side::Enemy)
        } else if w >= 2 {
            Some(Side::Caller)
        } else {
            first_to_two(oldest_first.drop_first(), w, l)
        }
    }
}

/// The winner of the match as the battle log shows it: with more than one counted battle,
/// whoever is first to two wins, oldest battle first; otherwise nobody yet.
pub open spec fn match_winner(
    logs: Seq<BattleRecord>,
    mode: &str,
    map: &str,
    caller: &str,
    enemy: &str,
) -> Option<Side> {
    let rs = counted_results(logs, mode, map, caller, enemy);
    if rs.len() > 1 {
        first_to_two(rs.reverse(), 0, 0)
    } else {
        None
    }
}

/// Decides the match between `caller_tag` and `enemy_tag` from the caller's battle log.
pub fn get_result(
    mode: &str,
    map: &str,
    caller_tag: &str,
    enemy_tag: &str,
    logs: &Vec<BattleRecord>,
) -> (r: Option<Side>)
    ensures
        r == match_winner(logs@, mode, map, caller_tag, enemy_tag),
{
    let mut results: Vec<String> = Vec::new();
    let mut i: usize = 0;
    while i < logs.len()
        invariant
            i <= logs@.len(),
            results@.len() == counted_results(
                logs@.take(i as int),
                mode,
                map,
                caller_tag,
                enemy_tag,
            ).len(),
            forall|j: int|
                0 <= j < results@.len() ==> #[trigger] results@[j]@ == counted_results(
                    logs@.take(i as int),
                    mode,
                    map,
                    caller_tag,
                    enemy_tag,
                )[j],
        decreases logs@.len() - i,
    {
        let log = &logs[i];
        assert(logs@.take(i + 1).drop_last() =~= logs@.take(i as int));
        assert(logs@.take(i + 1).last() == logs@[i as int]);
        let counts = compare_strings(log.battle_type.as_str(), "friendly") && compare_strings(
            log.mode.as_str(),
            mode,
        ) && (map.unicode_len() == 0 || compare_strings(log.map.as_str(), map)) && (compare_tag(
            caller_tag,
            log.player1.as_str(),
        ) || compare_tag(caller_tag, log.player2.as_str())) && (compare_tag(
            enemy_tag,
            log.player1.as_str(),
        ) || compare_tag(enemy_tag, log.player2.as_str()));
        if counts {
            results.push(log.result.clone());
        }
        i = i + 1;
    }
    assert(logs@.take(logs@.len() as int) =~= logs@);
    let ghost rs = counted_results(logs@, mode, map, caller_tag, enemy_tag);
    if results.len() > 1 {
        let mut wins: u64 = 0;
        let mut losses: u64 = 0;
        let mut k: usize = results.len();
        assert(rs.take(k as int) =~= rs);
        proof {
            reveal_strlit("defeat");
            reveal_strlit("victory");
            assert("defeat"@ != "victory"@) by {
                assert("defeat"@.len() != "victory"@.len());
            }
        }
        while k > 0
            invariant
                k <= results@.len(),
                results@.len() == rs.len(),
                rs == counted_results(logs@, mode, map, caller_tag, enemy_tag),
                rs.len() > 1,
                forall|j: int| 0 <= j < results@.len() ==> #[trigger] results@[j]@ == rs[j],
                wins < 2,
                losses < 2,
                "defeat"@ != "victory"@,
                first_to_two(rs.reverse(), 0, 0) == first_to_two(
                    rs.take(k as int).reverse(),
                    wins as nat,
                    losses as nat,
                ),
            decreases k,
        {
            let ghost suffix = rs.take(k as int).reverse();
            assert(suffix[0] == rs[k - 1]);
            assert(suffix.drop_first() =~= rs.take(k - 1).reverse());
            let ghost w0 = wins as nat;
            let ghost l0 = losses as nat;
            let res = results[k - 1].as_str();
            assert(res@ == suffix[0]);
            if same_text(res, "defeat") {
                losses = losses + 1;
            } else if same_text(res, "victory") {
                wins = wins + 1;
            }
            assert(first_to_two(suffix, w0, l0) == if losses == 2 && wins < 2 {
                Some(Side::Enemy)
            } else if wins >= 2 {
                Some(Side::Caller)
            } else {
                first_to_two(suffix.drop_first(), wins as nat, losses as nat)
            });
            if losses == 2 && wins < 2 {
                return Some(Side::Enemy);
            } else if wins >= 2 {
                return Some(Side::Caller);
            }
            k = k - 1;
        }
        assert(rs.take(0).reverse() =~= Seq::<Seq<char>>::empty());
        None
    } else {
        None
    }
}

/// How many times `x` occurs in `s`.
pub open spec fn count_in(s: Seq<Seq<char>>, x: Seq<char>) -> nat
    decreases s.len(),
{
    if s.len() == 0 {
        0
    } else {
        (if s[0] == x {
            1nat
        } else {
            0nat
        }) + count_in(s.drop_first(), x)
    }
}

proof fn lemma_count_in_push(s: Seq<Seq<char>>, y: Seq<char>, x: Seq<char>)
    ensures
        count_in(s.push(y), x) == count_in(s, x) + if y == x {
            1nat
        } else {
            0nat
        },
    decreases s.len(),
{
    assert(s.push(y)[0] == if s.len() > 0 {
        s[0]
    } else {
        y
    });
    if s.len() > 0 {
        assert(s.push(y).drop_first() =~= s.drop_first().push(y));
        lemma_count_in_push(s.drop_first(), y, x);
    } else {
        assert(s.push(y).drop_first() =~= Seq::<Seq<char>>::empty());
        assert(count_in(Seq::<Seq<char>>::empty(), x) == 0);
    }
}

proof fn lemma_count_in_reverse(s: Seq<Seq<char>>, x: Seq<char>)
    ensures
        count_in(s.reverse(), x) == count_in(s, x),
    decreases s.len(),
{
    if s.len() > 0 {
        let t = s.drop_first();
        lemma_count_in_reverse(t, x);
        assert(s.reverse() =~= t.reverse().push(s[0]));
        lemma_count_in_push(t.reverse(), s[0], x);
    }
}

proof fn lemma_first_to_two_counts(t: Seq<Seq<char>>, w: nat, l: nat)
    ensures
        first_to_two(t, w, l) == Some(Side::Caller) ==> w + count_in(t, "victory"@) >= 2,
        first_to_two(t, w, l) == Some(Side::Enemy) ==> l + count_in(t, "defeat"@) >= 2,
    decreases t.len(),
{
    if t.len() > 0 {
        lemma_first_to_two_counts(
            t.drop_first(),
            if t[0] == "victory"@ {
                w + 1
            } else {
                w
            },
            if t[0] == "defeat"@ {
                l + 1
            } else {
                l
            },
        );
    }
}

/// The winner of a match has won at least two of the battles that count, and a match
/// that the enemy wins has at least two counted defeats of the caller.
pub proof fn lemma_winner_won_twice(
    logs: Seq<BattleRecord>,
    mode: &str,
    map: &str,
    caller: &str,
    enemy: &str,
)
    ensures
        match_winner(logs, mode, map, caller, enemy) == Some(Side::Caller) ==> count_in(
            counted_results(logs, mode, map, caller, enemy),
            "victory"@,
        ) >= 2,
        match_winner(logs, mode, map, caller, enemy) == Some(Side::Enemy) ==> count_in(
            counted_results(logs, mode, map, caller, enemy),
            "defeat"@,
        ) >= 2,
{
    let rs = counted_results(logs, mode, map, caller, enemy);
    lemma_first_to_two_counts(rs.reverse(), 0, 0);
    lemma_count_in_reverse(rs, "victory"@);
    lemma_count_in_reverse(rs, "defeat"@);
}

/// Whether, counting from `cx` and `cy`, some stretch of `t` from its first item holds
/// at least two `x` and fewer than two `y`.
pub open spec fn reaches_two_first(t: Seq<Seq<char>>, x: Seq<char>, y: Seq<char>, cx: nat, cy: nat) -> bool {
    exists|k: int|
        0 <= k <= t.len() && cx + #[trigger] count_in(t.take(k), x) >= 2 && cy + count_in(
            t.take(k),
            y,
        ) < 2
}

proof fn lemma_count_take_empty(t: Seq<Seq<char>>, x: Seq<char>)
    ensures
        count_in(t.take(0), x) == 0,
{
    assert(t.take(0).len() == 0);
}

proof fn lemma_count_take_step(t: Seq<Seq<char>>, k: int, x: Seq<char>)
    requires
        1 <= k <= t.len(),
    ensures
        count_in(t.take(k), x) == (if t[0] == x {
            1nat
        } else {
            0nat
        }) + count_in(t.drop_first().take(k - 1), x),
{
    let s = t.take(k);
    assert(s[0] == t[0]);
    assert(s.drop_first() =~= t.drop_first().take(k - 1));
}

proof fn lemma_first_to_two_reaches(t: Seq<Seq<char>>, w: nat, l: nat)
    requires
        w < 2,
        l < 2,
        "victory"@ != "defeat"@,
    ensures
        (first_to_two(t, w, l) == Some(Side::Caller)) == reaches_two_first(
            t,
            "victory"@,
            "defeat"@,
            w,
            l,
        ),
        (first_to_two(t, w, l) == Some(Side::Enemy)) == reaches_two_first(
            t,
            "defeat"@,
            "victory"@,
            l,
            w,
        ),
    decreases t.len(),
{
    let v = "victory"@;
    let d = "defeat"@;
    if t.len() == 0 {
        if reaches_two_first(t, v, d, w, l) {
            let k = choose|k: int|
                0 <= k <= t.len() && w + #[trigger] count_in(t.take(k), v) >= 2 && l + count_in(
                    t.take(k),
                    d,
                ) < 2;
            lemma_count_take_empty(t, v);
        }
        if reaches_two_first(t, d, v, l, w) {
            let k = choose|k: int|
                0 <= k <= t.len() && l + #[trigger] count_in(t.take(k), d) >= 2 && w + count_in(
                    t.take(k),
                    v,
                ) < 2;
            lemma_count_take_empty(t, d);
        }
    } else {
        let rest = t.drop_first();
        let w2 = if t[0] == v {
            w + 1
        } else {
            w
        };
        let l2 = if t[0] == d {
            l + 1
        } else {
            l
        };
        lemma_count_take_empty(rest, v);
        lemma_count_take_empty(rest, d);
        lemma_count_take_empty(t, v);
        lemma_count_take_empty(t, d);
        if l2 == 2 && w2 < 2 {
            lemma_count_take_step(t, 1, v);
            lemma_count_take_step(t, 1, d);
            assert(l + count_in(t.take(1), d) >= 2 && w + count_in(t.take(1), v) < 2);
            if reaches_two_first(t, v, d, w, l) {
                let k = choose|k: int|
                    0 <= k <= t.len() && w + #[trigger] count_in(t.take(k), v) >= 2 && l + count_in(
                        t.take(k),
                        d,
                    ) < 2;
                lemma_count_take_step(t, k, d);
            }
        } else if w2 >= 2 {
            lemma_count_take_step(t, 1, v);
            lemma_count_take_step(t, 1, d);
            assert(w + count_in(t.take(1), v) >= 2 && l + count_in(t.take(1), d) < 2);
            if reaches_two_first(t, d, v, l, w) {
                let k = choose|k: int|
                    0 <= k <= t.len() && l + #[trigger] count_in(t.take(k), d) >= 2 && w + count_in(
                        t.take(k),
                        v,
                    ) < 2;
                lemma_count_take_step(t, k, v);
            }
        } else {
            lemma_first_to_two_reaches(rest, w2, l2);
            if reaches_two_first(t, v, d, w, l) {
                let k = choose|k: int|
                    0 <= k <= t.len() && w + #[trigger] count_in(t.take(k), v) >= 2 && l + count_in(
                        t.take(k),
                        d,
                    ) < 2;
                lemma_count_take_step(t, k, v);
                lemma_count_take_step(t, k, d);
                assert(w2 + count_in(rest.take(k - 1), v) >= 2);
            }
            if reaches_two_first(rest, v, d, w2, l2) {
                let k = choose|k: int|
                    0 <= k <= rest.len() && w2 + #[trigger] count_in(rest.take(k), v) >= 2 && l2
                        + count_in(rest.take(k), d) < 2;
                lemma_count_take_step(t, k + 1, v);
                lemma_count_take_step(t, k + 1, d);
                assert(w + count_in(t.take(k + 1), v) >= 2);
            }
            if reaches_two_first(t, d, v, l, w) {
                let k = choose|k: int|
                    0 <= k <= t.len() && l + #[trigger] count_in(t.take(k), d) >= 2 && w + count_in(
                        t.take(k),
                        v,
                    ) < 2;
                lemma_count_take_step(t, k, v);
                lemma_count_take_step(t, k, d);
                assert(l2 + count_in(rest.take(k - 1), d) >= 2);
            }
            if reaches_two_first(rest, d, v, l2, w2) {
                let k = choose|k: int|
                    0 <= k <= rest.len() && l2 + #[trigger] count_in(rest.take(k), d) >= 2 && w2
                        + count_in(rest.take(k), v) < 2;
                lemma_count_take_step(t, k + 1, v);
                lemma_count_take_step(t, k + 1, d);
                assert(l + count_in(t.take(k + 1), d) >= 2);
            }
        }
    }
}

/// First to two wins: with at most one counted battle nobody has won yet; otherwise,
/// reading the counted battles oldest first, the caller has won exactly when some stretch
/// from the oldest battle holds two victories and fewer than two defeats, the enemy
/// exactly when one holds two defeats and fewer than two victories, and nobody has won
/// when neither stretch exists.
pub proof fn lemma_first_to_two_wins(
    logs: Seq<BattleRecord>,
    mode: &str,
    map: &str,
    caller: &str,
    enemy: &str,
)
    ensures
        ({
            let rs = counted_results(logs, mode, map, caller, enemy);
            let t = rs.reverse();
            match_winner(logs, mode, map, caller, enemy) == if rs.len() <= 1 {
                None
            } else if reaches_two_first(t, "victory"@, "defeat"@, 0, 0) {
                Some(Side::Caller)
            } else if reaches_two_first(t, "defeat"@, "victory"@, 0, 0) {
                Some(Side::Enemy)
            } else {
                None::<Side>
            }
        }),
{
    reveal_strlit("defeat");
    reveal_strlit("victory");
    assert("defeat"@ != "victory"@) by {
        assert("defeat"@.len() != "victory"@.len());
    }
    let rs = counted_results(logs, mode, map, caller, enemy);
    let t = rs.reverse();
    lemma_first_to_two_reaches(t, 0, 0);
    let r = first_to_two(t, 0, 0);
    assert(r is None || r == Some(Side::Caller) || r == Some(Side::Enemy));
}

/// The results that count of a log made of two parts are those of the first part, then
/// those of the second.
proof fn lemma_counted_concat(
    a: Seq<BattleRecord>,
    b: Seq<BattleRecord>,
    mode: &str,
    map: &str,
    caller: &str,
    enemy: &str,
)
    ensures
        counted_results(a + b, mode, map, caller, enemy) == counted_results(a, mode, map, caller, enemy)
            + counted_results(b, mode, map, caller, enemy),
    decreases b.len(),
{
    if b.len() == 0 {
        assert(a + b =~= a);
        assert(counted_results(a, mode, map, caller, enemy) + counted_results(b, mode, map, caller, enemy)
            =~= counted_results(a, mode, map, caller, enemy));
    } else {
        lemma_counted_concat(a, b.drop_last(), mode, map, caller, enemy);
        assert((a + b).drop_last() =~= a + b.drop_last());
        assert((a + b).last() == b.last());
        let ca = counted_results(a, mode, map, caller, enemy);
        let cb = counted_results(b.drop_last(), mode, map, caller, enemy);
        assert((ca + cb).push(b.last().result@) =~= ca + cb.push(b.last().result@));
    }
}

/// A law of judging: a battle played on another map than the one set (when one is set),
/// or that is not friendly, or of another mode, or without both players, counts for
/// nothing: wherever it stands in the log, the results that count and the winner are
/// those of the log without it.
pub proof fn lemma_other_battles_do_not_count(
    a: Seq<BattleRecord>,
    l: BattleRecord,
    b: Seq<BattleRecord>,
    mode: &str,
    map: &str,
    caller: &str,
    enemy: &str,
)
    requires
        (map@.len() > 0 && !strings_match(l.map@, map@)) || !strings_match(l.battle_type@, "friendly"@)
            || !strings_match(l.mode@, mode@) || !(tags_match(caller@, l.player1@) || tags_match(
            caller@,
            l.player2@,
        )) || !(tags_match(enemy@, l.player1@) || tags_match(enemy@, l.player2@)),
    ensures
        counted_results(a + seq![l] + b, mode, map, caller, enemy) == counted_results(
            a + b,
            mode,
            map,
            caller,
            enemy,
        ),
        match_winner(a + seq![l] + b, mode, map, caller, enemy) == match_winner(a + b, mode, map, caller, enemy),
{
    let one = seq![l];
    lemma_counted_concat(a + one, b, mode, map, caller, enemy);
    lemma_counted_concat(a, one, mode, map, caller, enemy);
    lemma_counted_concat(a, b, mode, map, caller, enemy);
    assert(one.drop_last() =~= Seq::<BattleRecord>::empty());
    assert(one.last() == l);
    assert(counted_results(one.drop_last(), mode, map, caller, enemy) =~= Seq::<Seq<char>>::empty());
    assert(counted_results(one, mode, map, caller, enemy) =~= Seq::<Seq<char>>::empty());
    assert(counted_results(a, mode, map, caller, enemy) + Seq::<Seq<char>>::empty() =~= counted_results(
        a,
        mode,
        map,
        caller,
        enemy,
    ));
}

/// A law of judging: a friendly battle of the mode, on the map set (any map when none is
/// set), between the two players, counts: wherever it stands in the log, its result
/// takes its place among the results that count.
pub proof fn lemma_match_battles_count(
    a: Seq<BattleRecord>,
    l: BattleRecord,
    b: Seq<BattleRecord>,
    mode: &str,
    map: &str,
    caller: &str,
    enemy: &str,
)
    requires
        map@.len() == 0 || strings_match(l.map@, map@),
        strings_match(l.battle_type@, "friendly"@),
        strings_match(l.mode@, mode@),
        tags_match(caller@, l.player1@) || tags_match(caller@, l.player2@),
        tags_match(enemy@, l.player1@) || tags_match(enemy@, l.player2@),
    ensures
        counted_results(a + seq![l] + b, mode, map, caller, enemy) == counted_results(
            a,
            mode,
            map,
            caller,
            enemy,
        ).push(l.result@) + counted_results(b, mode, map, caller, enemy),
{
    let one = seq![l];
    lemma_counted_concat(a + one, b, mode, map, caller, enemy);
    lemma_counted_concat(a, one, mode, map, caller, enemy);
    assert(one.drop_last() =~= Seq::<BattleRecord>::empty());
    assert(one.last() == l);
    assert(counted_results(one.drop_last(), mode, map, caller, enemy) =~= Seq::<Seq<char>>::empty());
    assert(counted_results(one, mode, map, caller, enemy) =~= seq![l.result@]);
    assert(counted_results(a, mode, map, caller, enemy) + seq![l.result@] =~= counted_results(
        a,
        mode,
        map,
        caller,
        enemy,
    ).push(l.result@));
}

/// A law of judging: when a map is set and no battle of the log was played on it, nobody
/// has won.
pub proof fn lemma_no_battle_on_the_map(
    logs: Seq<BattleRecord>,
    mode: &str,
    map: &str,
    caller: &str,
    enemy: &str,
)
    requires
        map@.len() > 0,
        forall|i: int| 0 <= i < logs.len() ==> !strings_match(#[trigger] logs[i].map@, map@),
    ensures
        counted_results(logs, mode, map, caller, enemy).len() == 0,
        match_winner(logs, mode, map, caller, enemy) is None,
    decreases logs.len(),
{
    if logs.len() > 0 {
        let rest = logs.drop_last();
        assert forall|i: int| 0 <= i < rest.len() implies !strings_match(#[trigger] rest[i].map@, map@) by {
            assert(rest[i] == logs[i]);
        }
        lemma_no_battle_on_the_map(rest, mode, map, caller, enemy);
        assert(!strings_match(logs[logs.len() - 1].map@, map@));
    }
}

/// Tags and texts compare equal to themselves, and the comparisons do not depend on the
/// order of their arguments.
pub proof fn lemma_comparisons_symmetric(a: Seq<char>, b: Seq<char>)
    ensures
        tags_match(a, a),
        strings_match(a, a),
        tags_match(a, b) == tags_match(b, a),
        strings_match(a, b) == strings_match(b, a),
{
}

/// Where the characters of two tags match pair by pair up to the shorter one, their
/// UTF-8 byte lengths agree exactly when their character counts do.
proof fn lemma_tag_byte_lengths(a: Seq<char>, b: Seq<char>)
    requires
        forall|i: int| 0 <= i < a.len() && i < b.len() ==> tag_chars_match(#[trigger] a[i], b[i]),
    ensures
        (encode_utf8(a).len() == encode_utf8(b).len()) == (a.len() == b.len()),
    decreases a.len(),
{
    if a.len() == 0 || b.len() == 0 {
        if a.len() > 0 {
            assert(encode_scalar(a[0] as u32).len() >= 1);
        }
        if b.len() > 0 {
            assert(encode_scalar(b[0] as u32).len() >= 1);
        }
    } else {
        let (ra, rb) = (a.drop_first(), b.drop_first());
        assert forall|i: int| 0 <= i < ra.len() && i < rb.len() implies tag_chars_match(
            #[trigger] ra[i],
            rb[i],
        ) by {
            assert(tag_chars_match(a[i + 1], b[i + 1]));
        }
        lemma_tag_byte_lengths(ra, rb);
        assert(tag_chars_match(a[0], b[0]));
        assert(encode_scalar(a[0] as u32).len() == encode_scalar(b[0] as u32).len());
    }
}

/// Two tags match exactly when they have as many characters and the characters match
/// pair by pair: equal, or `O` against `0`.
pub proof fn lemma_tags_match_iff(a: Seq<char>, b: Seq<char>)
    ensures
        tags_match(a, b) == (a.len() == b.len() && forall|i: int|
            0 <= i < a.len() ==> tag_chars_match(#[trigger] a[i], b[i])),
{
    if forall|i: int| 0 <= i < a.len() && i < b.len() ==> tag_chars_match(#[trigger] a[i], b[i]) {
        lemma_tag_byte_lengths(a, b);
    }
}

/// What submitting a result leads to.
#[derive(Debug, Clone, Copy, PartialEq, Eq, Structural)]
pub enum Outcome {
    /// The opponent is a bye: the caller goes on to the next round.
    Bye,
    /// The side won the match and goes on to the next round.
    Advance(Side),
    /// The side won the final round: it is the champion.
    Champion(Side),
    /// Not enough battles in the log yet to decide the match.
    Pending,
}

/// The outcome of a submission: a bye when the opponent is a mannequin; otherwise, once
/// the log decides the match, the winner advances before the last round and becomes
/// champion in it.
pub open spec fn outcome_of(
    enemy_is_mannequin: bool,
    winner: Option<Side>,
    round: i32,
    total: i32,
) -> Outcome {
    if enemy_is_mannequin {
        Outcome::Bye
    } else {
        match winner {
            Some(side) => if round < total {
                Outcome::Advance(side)
            } else {
                Outcome::Champion(side)
            },
            None => Outcome::Pending,
        }
    }
}

/// Decides what a submitted result leads to (see `outcome_of`).
pub fn submit_outcome(enemy_is_mannequin: bool, winner: Option<Side>, round: i32, total: i32) -> (r:
    Outcome)
    ensures
        r == outcome_of(enemy_is_mannequin, winner, round, total),
{
    if enemy_is_mannequin {
        Outcome::Bye
    } else {
        match winner {
            Some(side) => if round < total {
                Outcome::Advance(side)
            } else {
                Outcome::Champion(side)
            },
            None => Outcome::Pending,
        }
    }
}

} // verus!

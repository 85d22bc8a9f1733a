use crate::text::{int_decimal, push_signed_decimal};
use vstd::prelude::*;
use vstd::string::*;

verus! {

/// Whether `p` is the first position of `ids` that holds match `m`.
pub open spec fn first_at(ids: Seq<Option<i32>>, m: i32, p: int) -> bool {
    &&& 0 <= p < ids.len()
    &&& ids[p] == Some(m)
    &&& forall|q: int| 0 <= q < p ==> ids[q] != Some(m)
}

/// Whether `groups` gathers the positions of `ids` by match: each group holds, in
/// increasing order, every position of one match and nothing else; no two groups share a
/// match; each position with a match is in a group; groups come in the order their
/// matches first appear.
pub open spec fn grouped_by_match(ids: Seq<Option<i32>>, groups: Seq<Seq<usize>>) -> bool {
    &&& forall|g: int| 0 <= g < groups.len() ==> (#[trigger] groups[g]).len() > 0
    &&& forall|g: int, k: int|
        0 <= g < groups.len() && 0 <= k < groups[g].len() ==> (#[trigger] groups[g][k]) < ids.len()
            && ids[groups[g][k] as int] == ids[groups[g][0] as int] && ids[groups[g][k] as int] is Some
    &&& forall|g: int, k1: int, k2: int|
        0 <= g < groups.len() && 0 <= k1 < k2 < groups[g].len() ==> #[trigger] groups[g][k1]
            < #[trigger] groups[g][k2]
    &&& forall|g: int, j: int|
        #![trigger groups[g], ids[j]]
        0 <= g < groups.len() && 0 <= j < ids.len() && ids[j] == ids[groups[g][0] as int]
            ==> exists|k: int| 0 <= k < groups[g].len() && #[trigger] groups[g][k] == j
    &&& forall|j: int|
        0 <= j < ids.len() && (#[trigger] ids[j]) is Some ==> exists|g: int|
            0 <= g < groups.len() && ids[groups[g][0] as int] == ids[j]
    &&& forall|g1: int, g2: int|
        0 <= g1 < g2 < groups.len() ==> #[trigger] groups[g1][0] < #[trigger] groups[g2][0]
            && ids[groups[g1][0] as int] != ids[groups[g2][0] as int]
}

/// The matches of `ids` in the order they first appear, with their first positions.
fn matches_in_order(ids: &Vec<Option<i32>>) -> (r: (Vec<i32>, Ghost<Seq<int>>))
    ensures
        r.0@.len() == r.1@.len(),
        forall|g: int| 0 <= g < r.0@.len() ==> first_at(ids@, #[trigger] r.0@[g], r.1@[g]),
        forall|g1: int, g2: int| 0 <= g1 < g2 < r.0@.len() ==> r.1@[g1] < r.1@[g2],
        forall|j: int|
            0 <= j < ids@.len() && (#[trigger] ids@[j]) is Some ==> exists|g: int|
                0 <= g < r.0@.len() && Some(r.0@[g]) == ids@[j],
{
    let mut keys: Vec<i32> = Vec::new();
    let ghost mut pos: Seq<int> = Seq::empty();
    let mut i: usize = 0;
    while i < ids.len()
        invariant
            i <= ids@.len(),
            keys@.len() == pos.len(),
            forall|g: int| 0 <= g < keys@.len() ==> first_at(ids@, #[trigger] keys@[g], pos[g]),
            forall|g: int| 0 <= g < keys@.len() ==> pos[g] < i,
            forall|g1: int, g2: int| 0 <= g1 < g2 < keys@.len() ==> pos[g1] < pos[g2],
            forall|j: int|
                0 <= j < i && (#[trigger] ids@[j]) is Some ==> exists|g: int|
                    0 <= g < keys@.len() && Some(keys@[g]) == ids@[j],
        decreases ids@.len() - i,
    {
        let ghost k0 = keys@;
        let ghost mut w: int = 0;
        if let Some(m) = ids[i] {
            let mut found = false;
            let mut g: usize = 0;
            while g < keys.len()
                invariant
                    g <= keys@.len(),
                    found == exists|h: int| 0 <= h < g && keys@[h] == m,
                decreases keys@.len() - g,
            {
                if keys[g] == m {
                    found = true;
                }
                g = g + 1;
            }
            if !found {
                proof {
                    assert forall|q: int| 0 <= q < i implies ids@[q] != Some(m) by {
                        if ids@[q] == Some(m) {
                            assert(ids@[q] is Some);
                        }
                    }
                    pos = pos.push(i as int);
                }
                keys.push(m);
                proof {
                    w = keys@.len() - 1;
                }
            } else {
                proof {
                    w = choose|h: int| 0 <= h < keys@.len() && keys@[h] == m;
                }
            }
            assert(0 <= w < keys@.len() && Some(keys@[w]) == ids@[i as int]);
        }
        proof {
            assert forall|j: int| 0 <= j < i + 1 && (#[trigger] ids@[j]) is Some implies exists|g: int|
                0 <= g < keys@.len() && Some(keys@[g]) == ids@[j] by {
                if j < i {
                    let g = choose|g: int| 0 <= g < k0.len() && Some(k0[g]) == ids@[j];
                    assert(keys@[g] == k0[g]);
                } else {
                    assert(Some(keys@[w]) == ids@[j]);
                }
            }
        }
        i = i + 1;
    }
    (keys, Ghost(pos))
}

/// The positions of `ids` that hold match `m`, in increasing order.
fn positions_of(ids: &Vec<Option<i32>>, m: i32) -> (r: Vec<usize>)
    ensures
        forall|k: int| 0 <= k < r@.len() ==> (#[trigger] r@[k]) < ids@.len() && ids@[r@[k] as int] == Some(m),
        forall|k1: int, k2: int| 0 <= k1 < k2 < r@.len() ==> #[trigger] r@[k1] < #[trigger] r@[k2],
        forall|j: int| 0 <= j < ids@.len() && ids@[j] == Some(m) ==> exists|k: int| 0 <= k < r@.len() && #[trigger] r@[k] == j,
        forall|p: int| first_at(ids@, m, p) ==> r@.len() > 0 && r@[0] == p,
{
    let mut r: Vec<usize> = Vec::new();
    let mut i: usize = 0;
    while i < ids.len()
        invariant
            i <= ids@.len(),
            forall|k: int| 0 <= k < r@.len() ==> (#[trigger] r@[k]) < i && ids@[r@[k] as int] == Some(m),
            forall|k1: int, k2: int| 0 <= k1 < k2 < r@.len() ==> #[trigger] r@[k1] < #[trigger] r@[k2],
            forall|j: int| 0 <= j < i && ids@[j] == Some(m) ==> exists|k: int| 0 <= k < r@.len() && #[trigger] r@[k] == j,
            forall|p: int| first_at(ids@, m, p) && p < i ==> r@.len() > 0 && r@[0] == p,
            r@.len() > 0 ==> exists|p: int| first_at(ids@, m, p) && r@[0] == p,
        decreases ids@.len() - i,
    {
        if ids[i] == Some(m) {
            let ghost before = r@;
            r.push(i);
            proof {
                if before.len() == 0 {
                    assert forall|q: int| 0 <= q < i implies ids@[q] != Some(m) by {
                        if ids@[q] == Some(m) {
                            assert(exists|k: int| 0 <= k < before.len() && before[k] == q);
                        }
                    }
                    assert(first_at(ids@, m, i as int));
                }
                assert forall|j: int| 0 <= j < i + 1 && ids@[j] == Some(m) implies exists|k: int|
                    0 <= k < r@.len() && #[trigger] r@[k] == j by {
                    if j == i {
                        assert(r@[r@.len() - 1] == j);
                    } else {
                        let k = choose|k: int| 0 <= k < before.len() && before[k] == j;
                        assert(r@[k] == j);
                    }
                }
            }
        }
        i = i + 1;
    }
    r
}

/// Gathers the positions of `ids` by match (see `grouped_by_match`); positions with no
/// match are left out.
pub fn group_by_match(ids: &Vec<Option<i32>>) -> (r: Vec<Vec<usize>>)
    ensures
        grouped_by_match(ids@, r@.map_values(|g: Vec<usize>| g@)),
{
    let (keys, Ghost(pos)) = matches_in_order(ids);
    let mut groups: Vec<Vec<usize>> = Vec::new();
    let mut g: usize = 0;
    while g < keys.len()
        invariant
            g <= keys@.len(),
            keys@.len() == pos.len(),
            forall|h: int| 0 <= h < keys@.len() ==> first_at(ids@, #[trigger] keys@[h], pos[h]),
            forall|g1: int, g2: int| 0 <= g1 < g2 < keys@.len() ==> pos[g1] < pos[g2],
            groups@.len() == g,
            forall|h: int| 0 <= h < g ==> (#[trigger] groups@[h])@.len() > 0 && groups@[h]@[0] == pos[h],
            forall|h: int, k: int|
                0 <= h < g && 0 <= k < groups@[h]@.len() ==> (#[trigger] groups@[h]@[k]) < ids@.len()
                    && ids@[groups@[h]@[k] as int] == Some(keys@[h]),
            forall|h: int, k1: int, k2: int|
                0 <= h < g && 0 <= k1 < k2 < groups@[h]@.len() ==> #[trigger] groups@[h]@[k1]
                    < #[trigger] groups@[h]@[k2],
            forall|h: int, j: int|
                0 <= h < g && 0 <= j < ids@.len() && ids@[j] == Some(keys@[h]) ==> exists|k: int|
                    0 <= k < groups@[h]@.len() && #[trigger] groups@[h]@[k] == j,
        decreases keys@.len() - g,
    {
        let members = positions_of(ids, keys[g]);
        let ghost m = members@;
        let ghost old_groups = groups@;
        proof {
            assert(first_at(ids@, keys@[g as int], pos[g as int]));
        }
        groups.push(members);
        proof {
            assert(groups@[g as int]@ == m);
            assert forall|h: int, j: int|
                0 <= h < g + 1 && 0 <= j < ids@.len() && ids@[j] == Some(keys@[h]) implies exists|k: int|
                0 <= k < groups@[h]@.len() && #[trigger] groups@[h]@[k] == j by {
                if h == g {
                    let k = choose|k: int| 0 <= k < m.len() && #[trigger] m[k] == j;
                    assert(groups@[h]@[k] == j);
                } else {
                    let k = choose|k: int| 0 <= k < old_groups[h]@.len() && #[trigger] old_groups[h]@[k] == j;
                    assert(groups@[h] == old_groups[h]);
                    assert(groups@[h]@[k] == j);
                }
            }
        }
        g = g + 1;
    }
    let ghost view = groups@.map_values(|v: Vec<usize>| v@);
    proof {
        assert forall|h: int| 0 <= h < view.len() implies ids@[view[h][0] as int] == Some(keys@[h]) by {
            assert(view[h] == groups@[h]@);
        }
        assert forall|h1: int, h2: int| 0 <= h1 < h2 < keys@.len() implies keys@[h1] != keys@[h2] by {
            if keys@[h1] == keys@[h2] {
                assert(first_at(ids@, keys@[h1], pos[h1]));
                assert(first_at(ids@, keys@[h2], pos[h2]));
                assert(ids@[pos[h1]] == Some(keys@[h2]));
            }
        }
        assert forall|j: int| 0 <= j < ids@.len() && (#[trigger] ids@[j]) is Some implies exists|h: int|
            0 <= h < view.len() && ids@[view[h][0] as int] == ids@[j] by {
            let h = choose|h: int| 0 <= h < keys@.len() && Some(keys@[h]) == ids@[j];
            assert(view[h] == groups@[h]@);
        }
        assert forall|h: int, j: int|
            #![trigger view[h], ids@[j]]
            0 <= h < view.len() && 0 <= j < ids@.len() && ids@[j] == ids@[view[h][0] as int] implies exists|k: int|
            0 <= k < view[h].len() && #[trigger] view[h][k] == j by {
            assert(view[h] == groups@[h]@);
            let k = choose|k: int| 0 <= k < groups@[h]@.len() && #[trigger] groups@[h]@[k] == j;
            assert(view[h][k] == j);
        }
    }
    groups
}

/// A law of grouping: each position that holds a match lies in exactly one group, at
/// exactly one place.
pub proof fn lemma_groups_partition(ids: Seq<Option<i32>>, groups: Seq<Seq<usize>>, j: int)
    requires
        grouped_by_match(ids, groups),
        0 <= j < ids.len(),
        ids[j] is Some,
    ensures
        exists|g: int, k: int| 0 <= g < groups.len() && 0 <= k < groups[g].len() && groups[g][k] == j,
        forall|g1: int, k1: int, g2: int, k2: int|
            0 <= g1 < groups.len() && 0 <= k1 < groups[g1].len() && groups[g1][k1] == j
                && 0 <= g2 < groups.len() && 0 <= k2 < groups[g2].len() && groups[g2][k2] == j
                ==> g1 == g2 && k1 == k2,
{
    assert(ids[j] is Some);
    let g = choose|g: int| 0 <= g < groups.len() && ids[groups[g][0] as int] == ids[j];
    assert(groups[g].len() > 0);
    let k = choose|k: int| 0 <= k < groups[g].len() && #[trigger] groups[g][k] == j;
    assert(0 <= g < groups.len() && 0 <= k < groups[g].len() && groups[g][k] == j);
    assert forall|g1: int, k1: int, g2: int, k2: int|
        0 <= g1 < groups.len() && 0 <= k1 < groups[g1].len() && groups[g1][k1] == j
            && 0 <= g2 < groups.len() && 0 <= k2 < groups[g2].len() && groups[g2][k2] == j
            implies g1 == g2 && k1 == k2 by {
        assert(ids[groups[g1][k1] as int] == ids[groups[g1][0] as int]);
        assert(ids[groups[g2][k2] as int] == ids[groups[g2][0] as int]);
        if g1 < g2 {
            assert(groups[g1][0] < groups[g2][0]);
        } else if g2 < g1 {
            assert(groups[g2][0] < groups[g1][0]);
        } else {
            if k1 < k2 {
                assert(groups[g1][k1] < groups[g1][k2]);
            } else if k2 < k1 {
                assert(groups[g1][k2] < groups[g1][k1]);
            }
        }
    }
}

/// The matches that occur in `ids`.
pub open spec fn matches_present(ids: Seq<Option<i32>>) -> Set<Option<i32>> {
    Set::new(|o: Option<i32>| o is Some && exists|j: int| 0 <= j < ids.len() && ids[j] == o)
}

/// The match of each group, in the order of the groups.
pub open spec fn group_matches(ids: Seq<Option<i32>>, groups: Seq<Seq<usize>>) -> Seq<Option<i32>> {
    groups.map_values(|g: Seq<usize>| ids[g[0] as int])
}

/// A law of grouping: there is exactly one group for each match that occurs, so there
/// are as many groups as distinct matches.
pub proof fn lemma_one_group_per_match(ids: Seq<Option<i32>>, groups: Seq<Seq<usize>>)
    requires
        grouped_by_match(ids, groups),
    ensures
        group_matches(ids, groups).to_set() == matches_present(ids),
        group_matches(ids, groups).no_duplicates(),
        groups.len() == matches_present(ids).len(),
{
    let keys = group_matches(ids, groups);
    assert forall|o: Option<i32>| keys.to_set().contains(o) <==> matches_present(ids).contains(o) by {
        if keys.to_set().contains(o) {
            let g = choose|g: int| 0 <= g < keys.len() && keys[g] == o;
            assert(groups[g].len() > 0);
            assert(groups[g][0] < ids.len());
            assert(ids[groups[g][0] as int] is Some);
        }
        if matches_present(ids).contains(o) {
            let j = choose|j: int| 0 <= j < ids.len() && ids[j] == o;
            assert(ids[j] is Some);
            let g = choose|g: int| 0 <= g < groups.len() && ids[groups[g][0] as int] == ids[j];
            assert(keys[g] == o);
        }
    }
    assert(keys.to_set() =~= matches_present(ids));
    assert forall|a: int, b: int| 0 <= a < keys.len() && 0 <= b < keys.len() && a != b implies keys[a]
        != keys[b] by {
        if a < b {
            assert(groups[a][0] < groups[b][0]);
        } else {
            assert(groups[b][0] < groups[a][0]);
        }
    }
    keys.unique_seq_to_set();
}

/// A player waiting in a round: the match, their Discord id, name and tag.
pub struct WaitingPlayer {
    pub match_id: i32,
    pub discord_id: String,
    pub name: String,
    pub tag: String,
}

/// The notice for a match of the round that has not been played yet.
pub open spec fn unfinished_text(a: WaitingPlayer, b: WaitingPlayer) -> Seq<char> {
    "**Some battles are not finished!**\n# Match "@ + int_decimal(a.match_id as int) + " \n<@"@
        + a.discord_id@ + "> - <@"@ + b.discord_id@ + ">\n"@ + a.name@ + "("@ + a.tag@ + ") - "@
        + b.name@ + "("@ + b.tag@ + ")"@
}

/// Writes the notice for a match not played yet (see `unfinished_text`).
pub fn unfinished_match(a: &WaitingPlayer, b: &WaitingPlayer) -> (r: String)
    ensures
        r@ == unfinished_text(*a, *b),
{
    let mut s = String::from_str("**Some battles are not finished!**\n# Match ");
    push_signed_decimal(&mut s, a.match_id as i64);
    s.append(" \n<@");
    s.append(a.discord_id.as_str());
    s.append("> - <@");
    s.append(b.discord_id.as_str());
    s.append(">\n");
    s.append(a.name.as_str());
    s.append("(");
    s.append(a.tag.as_str());
    s.append(") - ");
    s.append(b.name.as_str());
    s.append("(");
    s.append(b.tag.as_str());
    s.append(")");
    assert(s@ =~= unfinished_text(*a, *b));
    s
}

} // verus!

verus! {

/// Whether text `a` comes before or equals `b` in the order of `str`'s comparison:
/// character by character (UTF-8 byte order is code point order), a prefix first.
pub open spec fn text_le(a: Seq<char>, b: Seq<char>) -> bool
    decreases a.len(),
{
    if a.len() == 0 {
        true
    } else if b.len() == 0 {
        false
    } else if a[0] != b[0] {
        a[0] < b[0]
    } else {
        text_le(a.drop_first(), b.drop_first())
    }
}

/// The text order is total.
pub proof fn lemma_text_le_total(a: Seq<char>, b: Seq<char>)
    ensures
        text_le(a, b) || text_le(b, a),
    decreases a.len(),
{
    if a.len() > 0 && b.len() > 0 {
        if a[0] == b[0] {
            lemma_text_le_total(a.drop_first(), b.drop_first());
        }
    }
}

/// The text order is transitive.
pub proof fn lemma_text_le_transitive(a: Seq<char>, b: Seq<char>, c: Seq<char>)
    requires
        text_le(a, b),
        text_le(b, c),
    ensures
        text_le(a, c),
    decreases a.len(),
{
    if a.len() > 0 && b.len() > 0 && c.len() > 0 && a[0] == b[0] && b[0] == c[0] {
        lemma_text_le_transitive(a.drop_first(), b.drop_first(), c.drop_first());
    }
}

/// Compares two texts in the order of `text_le`.
pub fn text_le_exec(a: &str, b: &str) -> (r: bool)
    ensures
        r == text_le(a@, b@),
{
    let n = a.unicode_len();
    let m = b.unicode_len();
    let mut i: usize = 0;
    assert(a@.skip(0) =~= a@ && b@.skip(0) =~= b@);
    while i < n && i < m
        invariant
            n == a@.len(),
            m == b@.len(),
            i <= n,
            i <= m,
            text_le(a@, b@) == text_le(a@.skip(i as int), b@.skip(i as int)),
        decreases n - i,
    {
        let x = a.get_char(i);
        let y = b.get_char(i);
        assert(a@.skip(i as int)[0] == x && b@.skip(i as int)[0] == y);
        if x != y {
            return x < y;
        }
        assert(a@.skip(i as int).drop_first() =~= a@.skip(i + 1));
        assert(b@.skip(i as int).drop_first() =~= b@.skip(i + 1));
        i = i + 1;
    }
    n <= m
}

/// Whether a list of texts is in the order of `text_le`.
pub open spec fn texts_sorted(s: Seq<Seq<char>>) -> bool {
    forall|i: int, j: int| 0 <= i < j < s.len() ==> text_le(#[trigger] s[i], #[trigger] s[j])
}

/// The entry of a group of players in the list of unfinished matches: the notice for a
/// pair, an error entry carrying the first player's record otherwise.
pub open spec fn group_entry(g: Seq<usize>, players: Seq<WaitingPlayer>, records: Seq<String>) -> Seq<char> {
    if g.len() == 2 {
        unfinished_text(players[g[0] as int], players[g[1] as int])
    } else {
        "Error reading match "@ + records[g[0] as int]@
    }
}

/// Sorts texts in the order of `text_le`.
pub fn sort_texts(v: Vec<String>) -> (r: Vec<String>)
    ensures
        texts_sorted(r@.map_values(|s: String| s@)),
        r@.map_values(|s: String| s@).to_multiset() == v@.map_values(|s: String| s@).to_multiset(),
{
    let mut r: Vec<String> = Vec::new();
    let mut i: usize = 0;
    let ghost src = v@.map_values(|s: String| s@);
    assert(r@.map_values(|s: String| s@) =~= src.take(0));
    while i < v.len()
        invariant
            i <= v@.len(),
            src == v@.map_values(|s: String| s@),
            texts_sorted(r@.map_values(|s: String| s@)),
            r@.map_values(|s: String| s@).to_multiset() == src.take(i as int).to_multiset(),
        decreases v@.len() - i,
    {
        let x = v[i].clone();
        let mut j: usize = 0;
        while j < r.len() && text_le_exec(r[j].as_str(), x.as_str())
            invariant
                j <= r@.len(),
                forall|k: int| 0 <= k < j ==> text_le(#[trigger] r@[k]@, x@),
            decreases r@.len() - j,
        {
            j = j + 1;
        }
        let ghost before = r@.map_values(|s: String| s@);
        proof {
            if j < r@.len() {
                assert(!text_le(r@[j as int]@, x@));
                lemma_text_le_total(r@[j as int]@, x@);
            }
        }
        r.insert(j, x);
        let ghost after = r@.map_values(|s: String| s@);
        proof {
            assert(after =~= before.insert(j as int, x@));
            assert forall|a: int, b: int| 0 <= a < b < after.len() implies text_le(#[trigger] after[a], #[trigger] after[b]) by {
                if a < j && b < j {
                    assert(after[a] == before[a] && after[b] == before[b]);
                } else if a < j && b == j {
                } else if a < j {
                    assert(after[a] == before[a] && after[b] == before[b - 1]);
                    assert(text_le(before[a], x@));
                    lemma_text_le_total(before[j as int], x@);
                    if a < j {
                        assert(text_le(before[j as int], before[b - 1]) || b - 1 == j);
                        lemma_text_le_transitive(before[a], x@, before[j as int]);
                        if b - 1 != j {
                            lemma_text_le_transitive(before[a], before[j as int], before[b - 1]);
                        }
                    }
                } else if a == j {
                    assert(after[b] == before[b - 1]);
                    if b - 1 != j {
                        assert(text_le(before[j as int], before[b - 1]));
                        lemma_text_le_transitive(x@, before[j as int], before[b - 1]);
                    }
                } else {
                    assert(after[a] == before[a - 1] && after[b] == before[b - 1]);
                }
            }
            assert(after.remove(j as int) =~= before);
            assert(after[j as int] == x@);
            assert(src.take(i + 1) =~= src.take(i as int).push(x@));
            src.take(i as int).to_multiset_ensures();
            assert(after.to_multiset() =~= before.to_multiset().insert(x@)) by {
                after.to_multiset_ensures();
                assert(after.remove(j as int).to_multiset() =~= after.to_multiset().remove(after[j as int]));
                assert(after.to_multiset().count(x@) > 0) by {
                    assert(after.contains(x@));
                }
            }
        }
        i = i + 1;
    }
    proof {
        assert(src.take(i as int) =~= src);
    }
    r
}

} // verus!

verus! {

/// The entries of the list of unfinished matches in the order they are shown.
pub open spec fn entries_of(groups: Seq<Seq<usize>>, players: Seq<WaitingPlayer>, records: Seq<String>) -> Seq<Seq<char>> {
    groups.map_values(|g: Seq<usize>| group_entry(g, players, records))
}

/// A law of the list of unfinished matches: it holds one entry per distinct match.
pub proof fn lemma_one_entry_per_match(
    ids: Seq<Option<i32>>,
    groups: Seq<Seq<usize>>,
    players: Seq<WaitingPlayer>,
    records: Seq<String>,
    entries: Seq<Seq<char>>,
)
    requires
        grouped_by_match(ids, groups),
        entries.to_multiset() == entries_of(groups, players, records).to_multiset(),
    ensures
        entries.len() == matches_present(ids).len(),
{
    broadcast use vstd::seq_lib::to_multiset_len;

    lemma_one_group_per_match(ids, groups);
    assert(entries.len() == entries.to_multiset().len());
    assert(entries_of(groups, players, records).len() == entries_of(groups, players, records).to_multiset().len());
}

/// The list of matches not played yet: the players (with their matches and their records)
/// are gathered by match, each match gives its entry (see `group_entry`), and the
/// entries are sorted.
pub fn false_battles(ids: &Vec<Option<i32>>, players: &Vec<WaitingPlayer>, records: &Vec<String>) -> (r: Vec<String>)
    requires
        ids@.len() == players@.len(),
        ids@.len() == records@.len(),
    ensures
        texts_sorted(r@.map_values(|s: String| s@)),
        exists|groups: Seq<Seq<usize>>|
            grouped_by_match(ids@, groups) && r@.map_values(|s: String| s@).to_multiset()
                == #[trigger] entries_of(groups, players@, records@).to_multiset(),
{
    let groups = group_by_match(ids);
    let ghost gs = groups@.map_values(|g: Vec<usize>| g@);
    let mut entries: Vec<String> = Vec::new();
    let mut i: usize = 0;
    while i < groups.len()
        invariant
            i <= groups@.len(),
            gs == groups@.map_values(|g: Vec<usize>| g@),
            grouped_by_match(ids@, gs),
            ids@.len() == players@.len(),
            ids@.len() == records@.len(),
            entries@.len() == i,
            forall|k: int| 0 <= k < i ==> (#[trigger] entries@[k])@ == group_entry(gs[k], players@, records@),
        decreases groups@.len() - i,
    {
        let g = &groups[i];
        assert(g@ == gs[i as int]);
        assert(gs[i as int].len() > 0);
        assert(gs[i as int][0] < ids@.len());
        let e = if g.len() == 2 {
            assert(gs[i as int][1] < ids@.len());
            unfinished_match(&players[g[0]], &players[g[1]])
        } else {
            let mut s = String::from_str("Error reading match ");
            s.append(records[g[0]].as_str());
            s
        };
        entries.push(e);
        i = i + 1;
    }
    assert(entries@.map_values(|s: String| s@) =~= entries_of(gs, players@, records@));
    sort_texts(entries)
}

} // verus!

use vstd::prelude::*;
use vstd::string::*;
use crate::text::same_text;

verus! {

/// The `i`-th piece of `s` cut into pieces of `size` (the last one may be shorter).
pub open spec fn chunk_piece<T>(s: Seq<T>, size: nat, i: nat) -> Seq<T> {
    let lo = i * size;
    let hi = if (i + 1) * size <= s.len() {
        ((i + 1) * size) as int
    } else {
        s.len() as int
    };
    s.subrange(lo as int, hi)
}

/// How many pieces `s` is cut into.
pub open spec fn chunk_count(len: nat, size: nat) -> nat {
    ((len + size - 1) as nat) / size
}

/// Cuts `slice` into consecutive pieces of `chunk_size` elements; the last may be shorter.
pub fn chunk<T>(slice: &[T], chunk_size: usize) -> (r: Vec<&[T]>)
    requires
        chunk_size > 0,
    ensures
        r@.len() == chunk_count(slice@.len(), chunk_size as nat),
        forall|i: int|
            0 <= i < r@.len() ==> (#[trigger] r@[i])@ == chunk_piece(
                slice@,
                chunk_size as nat,
                i as nat,
            ),
{
    let n = slice.len();
    let mut r: Vec<&[T]> = Vec::new();
    let mut start: usize = 0;
    assert(r@.len() * chunk_size == 0);
    while start < n
        invariant
            n == slice@.len(),
            chunk_size > 0,
            start <= n,
            start == (if r@.len() * chunk_size <= n {
                r@.len() * chunk_size
            } else {
                n as int
            }),
            r@.len() == 0 || (r@.len() - 1) * chunk_size < n,
            forall|i: int|
                0 <= i < r@.len() ==> (#[trigger] r@[i])@ == chunk_piece(
                    slice@,
                    chunk_size as nat,
                    i as nat,
                ),
        decreases n - start,
    {
        let ghost k = r@.len();
        assert(start == k * chunk_size);
        assert((k + 1) * chunk_size == k * chunk_size + chunk_size) by (nonlinear_arith);
        let end = if n - start > chunk_size {
            start + chunk_size
        } else {
            n
        };
        r.push(&slice[start..end]);
        assert(r@[k as int]@ == chunk_piece(slice@, chunk_size as nat, k as nat));
        start = end;
    }
    proof {
        let k = r@.len();
        let cs = chunk_size as nat;
        assert(k * cs >= n);
        if k > 0 {
            assert((k - 1) * cs == k * cs - cs) by (nonlinear_arith);
        } else {
            assert(k * cs == 0);
        }
        assert(k * cs < n + cs);
        assert(((n + cs - 1) as nat) / cs == k) by (nonlinear_arith)
            requires
                k * cs >= n,
                k * cs < n + cs,
                cs > 0,
        ;
    }
    r
}

/// A law of `chunk`: every element of the input is found in its piece, at its place,
/// and pieces come in input order: the `k`-th element is element `k % size` of piece `k / size`.
pub proof fn lemma_chunk_covers<T>(s: Seq<T>, size: nat, k: int)
    requires
        size > 0,
        0 <= k < s.len(),
    ensures
        k / (size as int) < chunk_count(s.len(), size),
        k % (size as int) < chunk_piece(s, size, (k / (size as int)) as nat).len(),
        chunk_piece(s, size, (k / (size as int)) as nat)[k % (size as int)] == s[k],
{
    let cs = size as int;
    let i = k / cs;
    let j = k % cs;
    assert(k == i * cs + j && 0 <= j < cs && i >= 0) by (nonlinear_arith)
        requires
            cs > 0,
            k >= 0,
            i == k / cs,
            j == k % cs,
    ;
    assert((i + 1) * cs == i * cs + cs) by (nonlinear_arith);
    let n = s.len() as int;
    assert(i < ((n + cs - 1) / cs)) by (nonlinear_arith)
        requires
            k == i * cs + j,
            0 <= j < cs,
            k < n,
            cs > 0,
            i >= 0,
    ;
}

/// The page shown after a button press in the compact list of `len` pages: `next` goes
/// forward and `prev` back, wrapping around; other buttons change nothing.
pub open spec fn compact_next_index(index: int, len: int, custom_id: Seq<char>) -> Option<int> {
    if custom_id == "prev"@ {
        Some(
            if index == 0 {
                len - 1
            } else {
                index - 1
            },
        )
    } else if custom_id == "next"@ {
        Some(
            if index == len - 1 {
                0
            } else {
                index + 1
            },
        )
    } else {
        None
    }
}

/// The next page of the compact list after the button `custom_id` is pressed.
pub fn compact_step(index: usize, len: usize, custom_id: &str) -> (r: Option<usize>)
    requires
        index < len,
    ensures
        r matches Some(i) ==> i < len,
        match r {
            Some(i) => compact_next_index(index as int, len as int, custom_id@) == Some(i as int),
            None => compact_next_index(index as int, len as int, custom_id@) is None,
        },
{
    if same_text(custom_id, "prev") {
        Some(
            if index == 0 {
                len - 1
            } else {
                index - 1
            },
        )
    } else if same_text(custom_id, "next") {
        Some(
            if index == len - 1 {
                0
            } else {
                index + 1
            },
        )
    } else {
        None
    }
}

/// A law of the compact list: `prev` undoes `next` and `next` undoes `prev`.
pub proof fn lemma_compact_steps_undo(index: int, len: int)
    requires
        0 <= index < len,
    ensures
        compact_next_index(index, len, "next"@) matches Some(j) && compact_next_index(
            j,
            len,
            "prev"@,
        ) == Some(index),
        compact_next_index(index, len, "prev"@) matches Some(j) && compact_next_index(
            j,
            len,
            "next"@,
        ) == Some(index),
{
    reveal_strlit("next");
    reveal_strlit("prev");
    assert("next"@[0] != "prev"@[0]);
}

} // verus!

verus! {

/// The ids one per line, each followed by a line break.
pub open spec fn lines_of(ids: Seq<Seq<char>>) -> Seq<char>
    decreases ids.len(),
{
    if ids.len() == 0 {
        Seq::empty()
    } else {
        lines_of(ids.drop_last()) + ids.last() + "\n"@
    }
}

/// Writes the ids one per line (see `lines_of`), as the id file and the compact list hold them.
pub fn id_lines(ids: &[String]) -> (r: String)
    ensures
        r@ == lines_of(ids@.map_values(|s: String| s@)),
{
    let mut out = String::new();
    let mut i: usize = 0;
    while i < ids.len()
        invariant
            i <= ids@.len(),
            out@ == lines_of(ids@.take(i as int).map_values(|s: String| s@)),
        decreases ids@.len() - i,
    {
        let ghost next = ids@.take(i + 1).map_values(|s: String| s@);
        assert(next.drop_last() =~= ids@.take(i as int).map_values(|s: String| s@));
        out.append(ids[i].as_str());
        out.append("\n");
        i = i + 1;
    }
    assert(ids@.take(i as int) =~= ids@);
    out
}

/// The footer of a page of a list: `Page {index + 1}/{total}`.
pub open spec fn footer_text(index: nat, total: nat) -> Seq<char> {
    "Page "@ + crate::text::nat_decimal(index + 1) + "/"@ + crate::text::nat_decimal(total)
}

/// Writes the footer of a page (see `footer_text`).
pub fn page_footer(index: usize, total: usize) -> (r: String)
    requires
        index < total,
    ensures
        r@ == footer_text(index as nat, total as nat),
{
    let mut s = String::from_str("Page ");
    crate::text::push_decimal(&mut s, (index + 1) as u64);
    s.append("/");
    crate::text::push_decimal(&mut s, total as u64);
    s
}

} // verus!

verus! {

/// The pieces that `chunk` cuts `s` into.
pub open spec fn chunk_pieces<T>(s: Seq<T>, size: nat) -> Seq<Seq<T>> {
    Seq::new(chunk_count(s.len(), size), |i: int| chunk_piece(s, size, i as nat))
}

/// A law of `chunk`: the pieces put back together give the input, every piece but the
/// last holds exactly `size` elements, and the last holds from 1 to `size`.
pub proof fn lemma_chunk_concat<T>(s: Seq<T>, size: nat)
    requires
        size > 0,
    ensures
        chunk_pieces(s, size).flatten() == s,
        forall|i: int|
            0 <= i < chunk_pieces(s, size).len() - 1 ==> (#[trigger] chunk_pieces(s, size)[i]).len()
                == size,
        chunk_pieces(s, size).len() > 0 ==> 1 <= chunk_pieces(s, size).last().len() <= size,
    decreases s.len(),
{
    let n = s.len() as int;
    let z = size as int;
    let ps = chunk_pieces(s, size);
    if n == 0 {
        assert((z - 1) / z == 0) by (nonlinear_arith)
            requires
                z > 0,
        ;
        assert(ps.len() == 0);
    } else if n <= z {
        assert((n + z - 1) / z == 1) by (nonlinear_arith)
            requires
                z > 0,
                0 < n <= z,
        ;
        assert(ps.len() == 1);
        assert(0 * z == 0 && (0 + 1) * z == z) by (nonlinear_arith);
        assert(ps[0] == chunk_piece(s, size, 0));
        assert(ps[0] =~= s);
        assert(ps.drop_first() =~= Seq::<Seq<T>>::empty());
        assert(ps.drop_first().flatten() =~= Seq::<T>::empty());
        assert(ps.flatten() =~= s);
    } else {
        let t = s.subrange(z, n);
        lemma_chunk_concat(t, size);
        let pt = chunk_pieces(t, size);
        assert((n + z - 1) / z == (n - z + z - 1) / z + 1) by (nonlinear_arith)
            requires
                z > 0,
                n > z,
        ;
        assert(ps.len() == pt.len() + 1);
        assert forall|i: int| 0 <= i < pt.len() implies #[trigger] ps.drop_first()[i] == pt[i] by {
            assert((i + 1) * z == i * z + z) by (nonlinear_arith);
            assert((i + 2) * z == (i + 1) * z + z) by (nonlinear_arith);
            assert(0 <= i * z) by (nonlinear_arith)
                requires
                    0 <= i,
                    z > 0,
            ;
            let a = chunk_piece(s, size, (i + 1) as nat);
            let b = chunk_piece(t, size, i as nat);
            assert(ps.drop_first()[i] == a);
            assert(pt[i] == b);
            assert(((i + 1) as nat) * size == (i + 1) * z);
            assert((((i + 1) as nat) + 1) * size == (i + 2) * z) by (nonlinear_arith)
                requires
                    z == size,
                    i >= 0,
            ;
            assert((i as nat) * size == i * z);
            assert(((i as nat) + 1) * size == (i + 1) * z) by (nonlinear_arith)
                requires
                    z == size,
                    i >= 0,
            ;
            assert(i * z < n - z) by (nonlinear_arith)
                requires
                    0 <= i < (n - z + z - 1) / z,
                    z > 0,
                    n > z,
            ;
            assert(a.len() == b.len());
            assert forall|k: int| 0 <= k < a.len() implies a[k] == b[k] by {}
            assert(a =~= b);
        }
        assert(ps.drop_first() =~= pt);
        assert(0 * z == 0 && (0 + 1) * z == z) by (nonlinear_arith);
        assert(ps[0] == chunk_piece(s, size, 0));
        assert(ps[0] =~= s.subrange(0, z));
        assert(ps.flatten() == ps[0] + pt.flatten());
        assert(s =~= s.subrange(0, z) + t);
        assert forall|i: int| 0 <= i < ps.len() - 1 implies (#[trigger] ps[i]).len() == size by {
            if i > 0 {
                assert(ps[i] == pt[i - 1]);
            }
        }
        assert(ps.last() == pt.last());
    }
}

} // verus!

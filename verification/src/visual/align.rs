use vstd::prelude::*;

verus! {

/// `a / b` for integers as Rust computes it: the quotient rounded toward zero.
pub open spec fn div_toward_zero(a: int, b: int) -> int {
    if a >= 0 {
        a / b
    } else {
        -((-a) / b)
    }
}

/// The offset that centres a child of size `child` in a parent of size `parent`.
pub open spec fn centre_offset(parent: int, child: int) -> int {
    div_toward_zero(parent - child, 2)
}

/// The horizontal position that centres a child element within a parent element.
pub fn center_x(parent_width: i64, child_width: i64) -> (r: i64)
    requires
        i64::MIN <= parent_width - child_width <= i64::MAX,
    ensures
        r == centre_offset(parent_width as int, child_width as int),
{
    (parent_width - child_width) / 2
}

/// The vertical position that centres a child element within a parent element.
pub fn center_y(parent_height: i64, child_height: i64) -> (r: i64)
    requires
        i64::MIN <= parent_height - child_height <= i64::MAX,
    ensures
        r == centre_offset(parent_height as int, child_height as int),
{
    (parent_height - child_height) / 2
}

/// A law of centring: a child no larger than its parent, placed at the centring offset,
/// leaves equal margins on both sides, or one more pixel on the far side.
pub proof fn lemma_centred(parent: int, child: int)
    requires
        child <= parent,
    ensures
        ({
            let x = centre_offset(parent, child);
            let far = parent - (x + child);
            x >= 0 && (far == x || far == x + 1)
        }),
{
}

} // verus!

use vstd::prelude::*;

verus! {

// Numpad notation, seen from a player facing right:
//  y =  1 | 7 8 9
//  y =  0 | 4 5 6
//  y = -1 | 1 2 3
//         x: -1 0 1

/// Motion code of the neutral position.
pub const NEUTRAL: i32 = 5;

/// A logical input key, as sampled once per tick.
#[derive(Clone, Copy, Debug, PartialEq, Eq, Structural)]
pub enum InputKeys {
    NoKey,
    LeftKey,
    RightKey,
    UpKey,
    DownKey,
    SlashKey,
}

/// A direction or a sum of directions, as a pair of integer components.
#[derive(Clone, Copy, Debug, PartialEq, Eq, Structural)]
pub struct Point {
    pub x: i32,
    pub y: i32,
}

/// Horizontal unit component of a key. Keys that name no direction add nothing.
pub open spec fn key_dx(k: InputKeys) -> int {
    match k {
        InputKeys::LeftKey => -1,
        InputKeys::RightKey => 1,
        _ => 0,
    }
}

/// Vertical unit component of a key. Keys that name no direction add nothing.
pub open spec fn key_dy(k: InputKeys) -> int {
    match k {
        InputKeys::UpKey => 1,
        InputKeys::DownKey => -1,
        _ => 0,
    }
}

/// Whether a pair of components is one of the nine canonical directions.
pub open spec fn is_canonical(x: int, y: int) -> bool {
    -1 <= x <= 1 && -1 <= y <= 1
}

/// Numpad code of a direction vector; anything outside the nine canonical
/// directions falls back to neutral.
pub open spec fn numpad_of(x: int, y: int) -> int {
    if is_canonical(x, y) {
        3 * (y + 1) + (x + 1) + 1
    } else {
        5
    }
}

/// Whether an integer is a motion code.
pub open spec fn is_motion_code(c: int) -> bool {
    1 <= c <= 9
}

/// Horizontal component of the direction that a motion code stands for.
pub open spec fn code_dx(c: int) -> int {
    (c - 1) % 3 - 1
}

/// Vertical component of the direction that a motion code stands for.
pub open spec fn code_dy(c: int) -> int {
    (c - 1) / 3 - 1
}

/// Component-wise sum of the horizontal directions of a sequence of keys.
pub open spec fn sum_dx(s: Seq<InputKeys>) -> int
    decreases s.len(),
{
    if s.len() == 0 {
        0
    } else {
        sum_dx(s.drop_last()) + key_dx(s.last())
    }
}

/// Component-wise sum of the vertical directions of a sequence of keys.
pub open spec fn sum_dy(s: Seq<InputKeys>) -> int
    decreases s.len(),
{
    if s.len() == 0 {
        0
    } else {
        sum_dy(s.drop_last()) + key_dy(s.last())
    }
}

/// Unit direction of a key; a key that names no direction (no key, or an
/// attack button) is neutral.
pub fn key_to_direction(key: &InputKeys) -> (r: Point)
    ensures
        r.x == key_dx(*key),
        r.y == key_dy(*key),
{
    match key {
        InputKeys::LeftKey => Point { x: -1, y: 0 },
        InputKeys::RightKey => Point { x: 1, y: 0 },
        InputKeys::UpKey => Point { x: 0, y: 1 },
        InputKeys::DownKey => Point { x: 0, y: -1 },
        InputKeys::NoKey | InputKeys::SlashKey => Point { x: 0, y: 0 },
    }
}

/// Numpad code of a direction vector; out-of-range sums give neutral.
pub fn point_to_numpad(point: Point) -> (r: i32)
    ensures
        r == numpad_of(point.x as int, point.y as int),
        is_motion_code(r as int),
{
    if -1 <= point.x && point.x <= 1 && -1 <= point.y && point.y <= 1 {
        3 * (point.y + 1) + (point.x + 1) + 1
    } else {
        NEUTRAL
    }
}

/// The direction that a motion code stands for, or `None` for an integer
/// that is no motion code.
pub fn numpad_to_point(code: i32) -> (r: Option<Point>)
    ensures
        r is Some <==> is_motion_code(code as int),
        r matches Some(p) ==> p.x == code_dx(code as int) && p.y == code_dy(code as int),
{
    if 1 <= code && code <= 9 {
        Some(Point { x: (code - 1) % 3 - 1, y: (code - 1) / 3 - 1 })
    } else {
        None
    }
}

/// Motion code of the keys held during one tick: the directions of all keys
/// are summed, so opposite keys cancel, and an out-of-range sum is neutral.
pub fn inputs_to_numpad(sequence: &[InputKeys]) -> (r: i32)
    requires
        sequence@.len() <= i32::MAX,
    ensures
        r == numpad_of(sum_dx(sequence@), sum_dy(sequence@)),
{
    let mut x_sum: i32 = 0;
    let mut y_sum: i32 = 0;
    let mut i: usize = 0;
    while i < sequence.len()
        invariant
            i <= sequence@.len() <= i32::MAX,
            x_sum == sum_dx(sequence@.subrange(0, i as int)),
            y_sum == sum_dy(sequence@.subrange(0, i as int)),
            -(i as int) <= x_sum <= i,
            -(i as int) <= y_sum <= i,
        decreases sequence@.len() - i,
    {
        let point = key_to_direction(&sequence[i]);
        proof {
            let s = sequence@.subrange(0, i as int + 1);
            assert(s.drop_last() =~= sequence@.subrange(0, i as int));
        }
        x_sum = x_sum + point.x;
        y_sum = y_sum + point.y;
        i = i + 1;
    }
    proof {
        assert(sequence@.subrange(0, i as int) =~= sequence@);
    }
    point_to_numpad(Point { x: x_sum, y: y_sum })
}

/// Motion codes and canonical directions are in one-to-one correspondence:
/// going from a direction to its code and back gives the direction, and
/// going from a code to its direction and back gives the code.
pub proof fn lemma_numpad_round_trip(x: int, y: int, c: int)
    ensures
        is_canonical(x, y) ==> is_motion_code(numpad_of(x, y)),
        is_canonical(x, y) ==> code_dx(numpad_of(x, y)) == x && code_dy(numpad_of(x, y)) == y,
        is_motion_code(c) ==> is_canonical(code_dx(c), code_dy(c)),
        is_motion_code(c) ==> numpad_of(code_dx(c), code_dy(c)) == c,
{
}

/// Two keys of opposite directions held in the same tick cancel out to
/// neutral.
pub proof fn lemma_opposite_keys_cancel(a: InputKeys, b: InputKeys)
    requires
        key_dx(a) == -key_dx(b),
        key_dy(a) == -key_dy(b),
    ensures
        numpad_of(sum_dx(seq![a, b]), sum_dy(seq![a, b])) == NEUTRAL,
{
    let s = seq![a, b];
    assert(s.drop_last() =~= seq![a]);
    assert(s.drop_last().drop_last() =~= Seq::<InputKeys>::empty());
    assert(seq![a].drop_last() =~= Seq::<InputKeys>::empty());
    assert(sum_dx(Seq::<InputKeys>::empty()) == 0);
    assert(sum_dy(Seq::<InputKeys>::empty()) == 0);
    assert(sum_dx(seq![a]) == key_dx(a));
    assert(sum_dy(seq![a]) == key_dy(a));
    assert(sum_dx(s) == key_dx(a) + key_dx(b));
    assert(sum_dy(s) == key_dy(a) + key_dy(b));
}

} // verus!

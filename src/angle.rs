use vstd::prelude::*;

verus! {

/// Number of distinct angle values in one full revolution.
pub open spec fn turn() -> int {
    65536
}

/// An integer reduced onto one revolution of the unsigned angle.
pub open spec fn wrap_angle(x: int) -> int {
    x % turn()
}

/// The shortest signed step from angle `from` to angle `to`, in `[-32768, 32767]`.
pub open spec fn angle_delta(from: u16, to: u16) -> int {
    let d = wrap_angle(to - from);
    if d >= 32768 {
        d - turn()
    } else {
        d
    }
}

/// Shortest signed step between two angles.
pub fn shortest_delta(from: u16, to: u16) -> (r: i32)
    ensures
        r as int == angle_delta(from, to),
        -32768 <= r <= 32767,
{
    let d: i32 = to as i32 - from as i32;
    let wrapped: i32 = if d < 0 {
        d + 65536
    } else {
        d
    };
    if wrapped >= 32768 {
        wrapped - 65536
    } else {
        wrapped
    }
}

/// Advance an angle by a signed step, wrapping over the revolution.
pub fn advance_angle(angle: u16, step: i32) -> (r: u16)
    requires
        -65536 <= step <= 65536,
    ensures
        r as int == wrap_angle(angle + step),
{
    let s: i32 = angle as i32 + step;
    if s < 0 {
        (s + 65536) as u16
    } else if s >= 65536 {
        (s - 65536) as u16
    } else {
        s as u16
    }
}

} // verus!

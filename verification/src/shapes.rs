//! Points, rectangles and colours.

use vstd::prelude::*;
use crate::fixed::{blend_of, fx_add, fx_lerp, fx_mul, product_of, sum_of};

verus! {

/// A point or a direction in the plane, in fixed-point scalars.
#[derive(Clone, Copy, Debug, PartialEq, Eq, Structural)]
pub struct Vector2 {
    pub x: i64,
    pub y: i64,
}

/// An axis-aligned rectangle, given by its top-left corner and its size.
#[derive(Clone, Copy, Debug, PartialEq, Eq, Structural)]
pub struct Rectangle {
    pub x: i64,
    pub y: i64,
    pub width: i64,
    pub height: i64,
}

/// A colour with an alpha channel.
#[derive(Clone, Copy, Debug, PartialEq, Eq, Structural)]
pub struct Color {
    pub r: u8,
    pub g: u8,
    pub b: u8,
    pub a: u8,
}

impl Vector2 {
    pub open spec fn zero_spec() -> Vector2 {
        Vector2 { x: 0, y: 0 }
    }

    #[verifier::when_used_as_spec(zero_spec)]
    pub fn zero() -> (v: Vector2)
        ensures
            v == Vector2::zero_spec(),
    {
        Vector2 { x: 0, y: 0 }
    }

    pub fn new(x: i64, y: i64) -> (v: Vector2)
        ensures
            v == (Vector2 { x, y }),
    {
        Vector2 { x, y }
    }

    /// The sum of two vectors, component by component.
    pub open spec fn added_spec(self, other: Vector2) -> Vector2 {
        Vector2 { x: sum_of(self.x, other.x), y: sum_of(self.y, other.y) }
    }

    #[verifier::when_used_as_spec(added_spec)]
    pub fn added(self, other: Vector2) -> (v: Vector2)
        ensures
            v == self.added_spec(other),
    {
        Vector2 { x: fx_add(self.x, other.x), y: fx_add(self.y, other.y) }
    }

    /// The vector with both components multiplied by the scalar `k`.
    pub open spec fn scaled_spec(self, k: i64) -> Vector2 {
        Vector2 { x: product_of(self.x, k), y: product_of(self.y, k) }
    }

    #[verifier::when_used_as_spec(scaled_spec)]
    pub fn scaled(self, k: i64) -> (v: Vector2)
        ensures
            v == self.scaled_spec(k),
    {
        Vector2 { x: fx_mul(self.x, k), y: fx_mul(self.y, k) }
    }

    /// The product of two vectors, component by component.
    pub open spec fn stretched_spec(self, by: Vector2) -> Vector2 {
        Vector2 { x: product_of(self.x, by.x), y: product_of(self.y, by.y) }
    }

    #[verifier::when_used_as_spec(stretched_spec)]
    pub fn stretched(self, by: Vector2) -> (v: Vector2)
        ensures
            v == self.stretched_spec(by),
    {
        Vector2 { x: fx_mul(self.x, by.x), y: fx_mul(self.y, by.y) }
    }

    /// The point a share `amount` of the way from `self` to `to`.
    pub open spec fn lerp_spec(self, to: Vector2, amount: i64) -> Vector2 {
        Vector2 { x: blend_of(self.x, to.x, amount), y: blend_of(self.y, to.y, amount) }
    }

    #[verifier::when_used_as_spec(lerp_spec)]
    pub fn lerp(self, to: Vector2, amount: i64) -> (v: Vector2)
        ensures
            v == self.lerp_spec(to, amount),
    {
        Vector2 { x: fx_lerp(self.x, to.x, amount), y: fx_lerp(self.y, to.y, amount) }
    }
}

impl Color {
    pub fn new(r: u8, g: u8, b: u8, a: u8) -> (c: Color)
        ensures
            c == (Color { r, g, b, a }),
    {
        Color { r, g, b, a }
    }

    pub open spec fn dark_green_spec() -> Color {
        Color { r: 0, g: 117, b: 44, a: 255 }
    }

    #[verifier::when_used_as_spec(dark_green_spec)]
    pub fn dark_green() -> (c: Color)
        ensures
            c == Color::dark_green_spec(),
    {
        Color { r: 0, g: 117, b: 44, a: 255 }
    }

    pub open spec fn green_spec() -> Color {
        Color { r: 0, g: 228, b: 48, a: 255 }
    }

    #[verifier::when_used_as_spec(green_spec)]
    pub fn green() -> (c: Color)
        ensures
            c == Color::green_spec(),
    {
        Color { r: 0, g: 228, b: 48, a: 255 }
    }

    pub open spec fn yellow_spec() -> Color {
        Color { r: 253, g: 249, b: 0, a: 255 }
    }

    #[verifier::when_used_as_spec(yellow_spec)]
    pub fn yellow() -> (c: Color)
        ensures
            c == Color::yellow_spec(),
    {
        Color { r: 253, g: 249, b: 0, a: 255 }
    }

    pub open spec fn gold_spec() -> Color {
        Color { r: 255, g: 203, b: 0, a: 255 }
    }

    #[verifier::when_used_as_spec(gold_spec)]
    pub fn gold() -> (c: Color)
        ensures
            c == Color::gold_spec(),
    {
        Color { r: 255, g: 203, b: 0, a: 255 }
    }

    pub open spec fn red_spec() -> Color {
        Color { r: 230, g: 41, b: 55, a: 255 }
    }

    #[verifier::when_used_as_spec(red_spec)]
    pub fn red() -> (c: Color)
        ensures
            c == Color::red_spec(),
    {
        Color { r: 230, g: 41, b: 55, a: 255 }
    }
}

impl Rectangle {
    pub fn new(x: i64, y: i64, width: i64, height: i64) -> (r: Rectangle)
        ensures
            r == (Rectangle { x, y, width, height }),
    {
        Rectangle { x, y, width, height }
    }

    /// Whether the point lies in the rectangle, its border included.
    pub open spec fn holds_point(self, point: Vector2) -> bool {
        &&& self.x <= point.x <= self.x + self.width
        &&& self.y <= point.y <= self.y + self.height
    }

    pub fn check_collision_point_rec(&self, point: Vector2) -> (hit: bool)
        ensures
            hit == self.holds_point(point),
    {
        let px: i128 = point.x as i128;
        let py: i128 = point.y as i128;
        px >= self.x as i128 && px <= self.x as i128 + self.width as i128
            && py >= self.y as i128 && py <= self.y as i128 + self.height as i128
    }

    /// The point of the rectangle nearest to `center`, as exact integers.
    pub open spec fn nearest_to(self, center: Vector2) -> (int, int) {
        (
            nearest_in(center.x as int, self.x as int, self.x + self.width),
            nearest_in(center.y as int, self.y as int, self.y + self.height),
        )
    }

    /// Whether the disc round `center` with the given radius reaches the
    /// rectangle: whether the rectangle's nearest point is no farther from
    /// `center` than `radius`. A negative radius reaches nothing.
    pub open spec fn touches_circle(self, center: Vector2, radius: i64) -> bool {
        let (nx, ny) = self.nearest_to(center);
        let dx = center.x - nx;
        let dy = center.y - ny;
        radius >= 0 && dx * dx + dy * dy <= radius * radius
    }

    pub fn check_collision_circle_rec(&self, center: Vector2, radius: i64) -> (hit: bool)
        ensures
            hit == self.touches_circle(center, radius),
    {
        if radius < 0 {
            return false;
        }
        let nx: i128 = nearest_i128(
            center.x as i128,
            self.x as i128,
            self.x as i128 + self.width as i128,
        );
        let ny: i128 = nearest_i128(
            center.y as i128,
            self.y as i128,
            self.y as i128 + self.height as i128,
        );
        let dx: i128 = center.x as i128 - nx;
        let dy: i128 = center.y as i128 - ny;
        let r: i128 = radius as i128;
        if dx > r || dx < -r || dy > r || dy < -r {
            proof {
                lemma_far_on_one_axis(dx as int, dy as int, r as int);
            }
            return false;
        }
        proof {
            lemma_square_bound(dx as int, r as int);
            lemma_square_bound(dy as int, r as int);
            lemma_square_bound(r as int, r as int);
        }
        dx * dx + dy * dy <= r * r
    }
}

/// The value of the range from `low` to `high` nearest to `v`.
pub open spec fn nearest_in(v: int, low: int, high: int) -> int {
    if v < low {
        low
    } else if v > high {
        high
    } else {
        v
    }
}

fn nearest_i128(v: i128, low: i128, high: i128) -> (r: i128)
    ensures
        r == nearest_in(v as int, low as int, high as int),
{
    if v < low {
        low
    } else if v > high {
        high
    } else {
        v
    }
}

proof fn lemma_far_on_one_axis(dx: int, dy: int, r: int)
    by (nonlinear_arith)
    requires
        r >= 0,
        dx > r || dx < -r || dy > r || dy < -r,
    ensures
        dx * dx + dy * dy > r * r,
{
    assert(dx * dx >= 0 && dy * dy >= 0);
    if dx > r {
        assert(dx * dx > r * r);
    } else if dx < -r {
        assert((-dx) * (-dx) > r * r);
    } else if dy > r {
        assert(dy * dy > r * r);
    } else {
        assert((-dy) * (-dy) > r * r);
    }
}

proof fn lemma_square_bound(d: int, r: int)
    by (nonlinear_arith)
    requires
        0 <= r <= i64::MAX,
        -r <= d <= r,
    ensures
        0 <= d * d <= r * r,
        r * r <= 0x3fff_ffff_ffff_ffff_0000_0000_0000_0001,
{
    assert(r * r <= 0x7fff_ffff_ffff_ffff * 0x7fff_ffff_ffff_ffff);
    if d >= 0 {
        assert(d * d <= r * r);
    } else {
        assert((-d) * (-d) <= r * r);
    }
}

} // verus!

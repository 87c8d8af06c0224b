//! Two-component vectors and axis-aligned pixel rectangles.

use core::ops::{Add, Div, Mul, Sub};
use vstd::prelude::*;
use vstd::std_specs::ops::{AddSpec, AddSpecImpl, DivSpec, DivSpecImpl, MulSpec, MulSpecImpl, SubSpec, SubSpecImpl};

verus! {

/// A pair of scalars of one type.
#[derive(Clone, Copy, Debug, PartialEq, Eq)]
pub struct Vec2<T: Copy> {
    pub x: T,
    pub y: T,
}

impl<T: Copy> Vec2<T> {
    /// The vector with the given components.
    pub fn new(x: T, y: T) -> (v: Vec2<T>)
        ensures
            v.x == x,
            v.y == y,
    {
        Vec2 { x: x, y: y }
    }

    /// The vector whose two components are both `s`.
    pub fn s(s: T) -> (v: Vec2<T>)
        ensures
            v.x == s,
            v.y == s,
    {
        Vec2 { x: s, y: s }
    }
}

impl<T: Add + Copy> Add for Vec2<T> where T::Output: Copy {
    type Output = Vec2<T::Output>;

    /// Component-wise sum.
    fn add(self, rhs: Vec2<T>) -> (out: Vec2<T::Output>) {
        Vec2::<T::Output> { x: self.x + rhs.x, y: self.y + rhs.y }
    }
}

impl<T: Add + Copy> AddSpecImpl for Vec2<T> where T::Output: Copy {
    /// The components' own `+` is specified, so this one is too.
    open spec fn obeys_add_spec() -> bool {
        T::obeys_add_spec()
    }

    /// Both component operations must be admissible (no overflow, no zero
    /// divisor, as the component type demands).
    open spec fn add_req(self, rhs: Vec2<T>) -> bool {
        self.x.add_req(rhs.x) && self.y.add_req(rhs.y)
    }

    open spec fn add_spec(self, rhs: Vec2<T>) -> Vec2<T::Output> {
        Vec2::<T::Output> { x: self.x.add_spec(rhs.x), y: self.y.add_spec(rhs.y) }
    }
}

impl<T: Sub + Copy> Sub for Vec2<T> where T::Output: Copy {
    type Output = Vec2<T::Output>;

    /// Component-wise difference.
    fn sub(self, rhs: Vec2<T>) -> (out: Vec2<T::Output>) {
        Vec2::<T::Output> { x: self.x - rhs.x, y: self.y - rhs.y }
    }
}

impl<T: Sub + Copy> SubSpecImpl for Vec2<T> where T::Output: Copy {
    /// The components' own `-` is specified, so this one is too.
    open spec fn obeys_sub_spec() -> bool {
        T::obeys_sub_spec()
    }

    /// Both component operations must be admissible (no overflow, no zero
    /// divisor, as the component type demands).
    open spec fn sub_req(self, rhs: Vec2<T>) -> bool {
        self.x.sub_req(rhs.x) && self.y.sub_req(rhs.y)
    }

    open spec fn sub_spec(self, rhs: Vec2<T>) -> Vec2<T::Output> {
        Vec2::<T::Output> { x: self.x.sub_spec(rhs.x), y: self.y.sub_spec(rhs.y) }
    }
}

impl<T: Mul + Copy> Mul for Vec2<T> where T::Output: Copy {
    type Output = Vec2<T::Output>;

    /// Component-wise product.
    fn mul(self, rhs: Vec2<T>) -> (out: Vec2<T::Output>) {
        Vec2::<T::Output> { x: self.x * rhs.x, y: self.y * rhs.y }
    }
}

impl<T: Mul + Copy> MulSpecImpl for Vec2<T> where T::Output: Copy {
    /// The components' own `*` is specified, so this one is too.
    open spec fn obeys_mul_spec() -> bool {
        T::obeys_mul_spec()
    }

    /// Both component operations must be admissible (no overflow, no zero
    /// divisor, as the component type demands).
    open spec fn mul_req(self, rhs: Vec2<T>) -> bool {
        self.x.mul_req(rhs.x) && self.y.mul_req(rhs.y)
    }

    open spec fn mul_spec(self, rhs: Vec2<T>) -> Vec2<T::Output> {
        Vec2::<T::Output> { x: self.x.mul_spec(rhs.x), y: self.y.mul_spec(rhs.y) }
    }
}

impl<T: Div + Copy> Div for Vec2<T> where T::Output: Copy {
    type Output = Vec2<T::Output>;

    /// Component-wise quotient.
    fn div(self, rhs: Vec2<T>) -> (out: Vec2<T::Output>) {
        Vec2::<T::Output> { x: self.x / rhs.x, y: self.y / rhs.y }
    }
}

impl<T: Div + Copy> DivSpecImpl for Vec2<T> where T::Output: Copy {
    /// The components' own `/` is specified, so this one is too.
    open spec fn obeys_div_spec() -> bool {
        T::obeys_div_spec()
    }

    /// Both component operations must be admissible (no overflow, no zero
    /// divisor, as the component type demands).
    open spec fn div_req(self, rhs: Vec2<T>) -> bool {
        self.x.div_req(rhs.x) && self.y.div_req(rhs.y)
    }

    open spec fn div_spec(self, rhs: Vec2<T>) -> Vec2<T::Output> {
        Vec2::<T::Output> { x: self.x.div_spec(rhs.x), y: self.y.div_spec(rhs.y) }
    }
}

/// An axis-aligned rectangle in whole pixels, held by its low corner
/// `(x1, y1)` and its high corner `(x2, y2)`.
#[derive(Clone, Copy, Debug, PartialEq, Eq, Structural)]
pub struct Rect {
    pub x1: i32,
    pub y1: i32,
    pub x2: i32,
    pub y2: i32,
}

impl Rect {
    /// The rectangle with low corner `(x, y)`. Both extents are taken from
    /// `width`, so the result is always a square; `height` does not enter.
    pub fn new(x: i32, y: i32, width: i32, height: i32) -> (r: Rect)
        requires
            i32::MIN <= x + width <= i32::MAX,
            i32::MIN <= y + width <= i32::MAX,
        ensures
            r.x1 == x,
            r.y1 == y,
            r.x2 == x + width,
            r.y2 == y + width,
    {
        Rect { x1: x, y1: y, x2: x + width, y2: y + width }
    }

    /// The low corner.
    pub fn pos(&self) -> (p: Vec2<i32>)
        ensures
            p.x == self.x1,
            p.y == self.y1,
    {
        Vec2::<i32> { x: self.x1, y: self.y1 }
    }

    /// The horizontal extent.
    pub fn width(&self) -> (w: i32)
        requires
            i32::MIN <= self.x2 - self.x1 <= i32::MAX,
        ensures
            w == self.x2 - self.x1,
    {
        self.x2 - self.x1
    }

    /// The vertical extent.
    pub fn height(&self) -> (h: i32)
        requires
            i32::MIN <= self.y2 - self.y1 <= i32::MAX,
        ensures
            h == self.y2 - self.y1,
    {
        self.y2 - self.y1
    }
}

} // verus!

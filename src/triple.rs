use core::marker::PhantomData;
use vstd::prelude::*;

verus! {

/// A colour of three components of type `T`. `U` tags the colour space at the
/// type level and carries no data.
#[derive(Debug)]
pub struct Color3<T, U>(pub T, pub T, pub T, pub PhantomData<U>);

/// A colour of four components of type `T`, tagged by `U` as `Color3` is.
#[derive(Debug)]
pub struct Color4<T, U>(pub T, pub T, pub T, pub T, pub PhantomData<U>);

pub open spec fn max3(a: int, b: int, c: int) -> int {
    if a >= b && a >= c {
        a
    } else if b >= c {
        b
    } else {
        c
    }
}

/// A channel `c` rescaled so that a channel equal to `m` becomes full
/// intensity, 255; rounded down.
pub open spec fn scale_to_full(c: int, m: int) -> int {
    c * 255 / m
}

pub open spec fn fits_i64(x: int) -> bool {
    i64::MIN <= x <= i64::MAX
}

impl<T, U> Color3<T, U> {
    pub fn new(a: T, b: T, c: T) -> (r: Color3<T, U>)
        ensures
            r.0 == a,
            r.1 == b,
            r.2 == c,
    {
        Color3(a, b, c, PhantomData)
    }
}

impl<U> Color3<u8, U> {
    /// The brightest channel.
    pub open spec fn max_channel(self) -> int {
        max3(self.0 as int, self.1 as int, self.2 as int)
    }

    /// Rescales the colour so that its brightest channel is full intensity
    /// (255) and the others keep their ratio to it, rounded down. Black has
    /// no brightest channel to scale, so it gives `None`.
    pub fn normalize(&self) -> (r: Option<Color3<u8, U>>)
        ensures
            r is None <==> self.max_channel() == 0,
            r matches Some(n) ==> {
                &&& n.0 == scale_to_full(self.0 as int, self.max_channel())
                &&& n.1 == scale_to_full(self.1 as int, self.max_channel())
                &&& n.2 == scale_to_full(self.2 as int, self.max_channel())
                &&& n.max_channel() == 255
            },
    {
        let m = if self.0 >= self.1 && self.0 >= self.2 {
            self.0
        } else if self.1 >= self.2 {
            self.1
        } else {
            self.2
        };
        if m == 0 {
            return None;
        }
        Some(Color3(scale_channel(self.0, m), scale_channel(self.1, m), scale_channel(self.2, m), PhantomData))
    }
}

fn scale_channel(c: u8, m: u8) -> (r: u8)
    requires
        0 < m,
        c <= m,
    ensures
        r == scale_to_full(c as int, m as int),
        c == m ==> r == 255,
{
    proof {
        assert(c * 255 <= m * 255) by (nonlinear_arith)
            requires
                c <= m,
        ;
        assert(m * 255 / (m as int) == 255) by (nonlinear_arith)
            requires
                0 < m,
        ;
        vstd::arithmetic::div_mod::lemma_div_is_ordered(c * 255, m * 255, m as int);
    }
    ((c as u32 * 255) / m as u32) as u8
}

impl<U> Color3<i64, U> {
    /// Component-wise sum.
    pub fn add(&self, o: &Color3<i64, U>) -> (r: Color3<i64, U>)
        requires
            fits_i64(self.0 + o.0),
            fits_i64(self.1 + o.1),
            fits_i64(self.2 + o.2),
        ensures
            r.0 == self.0 + o.0,
            r.1 == self.1 + o.1,
            r.2 == self.2 + o.2,
    {
        Color3(self.0 + o.0, self.1 + o.1, self.2 + o.2, PhantomData)
    }

    /// Component-wise product.
    pub fn mul(&self, o: &Color3<i64, U>) -> (r: Color3<i64, U>)
        requires
            fits_i64(self.0 * o.0),
            fits_i64(self.1 * o.1),
            fits_i64(self.2 * o.2),
        ensures
            r.0 == self.0 * o.0,
            r.1 == self.1 * o.1,
            r.2 == self.2 * o.2,
    {
        Color3(self.0 * o.0, self.1 * o.1, self.2 * o.2, PhantomData)
    }
}

impl<T, U> Color4<T, U> {
    pub fn new(a: T, b: T, c: T, d: T) -> (r: Color4<T, U>)
        ensures
            r.0 == a,
            r.1 == b,
            r.2 == c,
            r.3 == d,
    {
        Color4(a, b, c, d, PhantomData)
    }
}

impl<U> Color4<i64, U> {
    /// Component-wise product.
    pub fn mul(&self, o: &Color4<i64, U>) -> (r: Color4<i64, U>)
        requires
            fits_i64(self.0 * o.0),
            fits_i64(self.1 * o.1),
            fits_i64(self.2 * o.2),
            fits_i64(self.3 * o.3),
        ensures
            r.0 == self.0 * o.0,
            r.1 == self.1 * o.1,
            r.2 == self.2 * o.2,
            r.3 == self.3 * o.3,
    {
        Color4(self.0 * o.0, self.1 * o.1, self.2 * o.2, self.3 * o.3, PhantomData)
    }
}

} // verus!

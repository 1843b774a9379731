use vstd::prelude::*;

verus! {

/// A colour quantized to eight bits per channel.
#[derive(Debug, Clone, Copy, Default, PartialEq, Eq, Structural)]
pub struct Color32 {
    pub r: u8,
    pub g: u8,
    pub b: u8,
    pub a: u8,
}

impl Color32 {
    /// Opaque black.
    pub fn black() -> (c: Self)
        ensures
            c == (Color32 { r: 0, g: 0, b: 0, a: 255 }),
    {
        Color32 { r: 0, g: 0, b: 0, a: 255 }
    }

    /// Opaque white.
    pub fn white() -> (c: Self)
        ensures
            c == (Color32 { r: 255, g: 255, b: 255, a: 255 }),
    {
        Color32 { r: 255, g: 255, b: 255, a: 255 }
    }

    /// Opaque gray.
    pub fn gray() -> (c: Self)
        ensures
            c == (Color32 { r: 127, g: 127, b: 127, a: 255 }),
    {
        Color32 { r: 127, g: 127, b: 127, a: 255 }
    }

    /// Opaque red.
    pub fn red() -> (c: Self)
        ensures
            c == (Color32 { r: 255, g: 0, b: 0, a: 255 }),
    {
        Color32 { r: 255, g: 0, b: 0, a: 255 }
    }

    /// Opaque green.
    pub fn green() -> (c: Self)
        ensures
            c == (Color32 { r: 0, g: 255, b: 0, a: 255 }),
    {
        Color32 { r: 0, g: 255, b: 0, a: 255 }
    }

    /// Opaque blue.
    pub fn blue() -> (c: Self)
        ensures
            c == (Color32 { r: 0, g: 0, b: 255, a: 255 }),
    {
        Color32 { r: 0, g: 0, b: 255, a: 255 }
    }

    /// Every channel of `self + other` stays within eight bits.
    pub open spec fn sum_fits(self, other: Color32) -> bool {
        self.r + other.r <= 255 && self.g + other.g <= 255 && self.b + other.b <= 255 && self.a
            + other.a <= 255
    }

    /// Channel-wise sum.
    pub open spec fn sum(self, other: Color32) -> Color32 {
        Color32 {
            r: (self.r + other.r) as u8,
            g: (self.g + other.g) as u8,
            b: (self.b + other.b) as u8,
            a: (self.a + other.a) as u8,
        }
    }

    /// No channel of `other` exceeds the matching channel of `self`.
    pub open spec fn difference_fits(self, other: Color32) -> bool {
        other.r <= self.r && other.g <= self.g && other.b <= self.b && other.a <= self.a
    }

    /// Channel-wise difference.
    pub open spec fn difference(self, other: Color32) -> Color32 {
        Color32 {
            r: (self.r - other.r) as u8,
            g: (self.g - other.g) as u8,
            b: (self.b - other.b) as u8,
            a: (self.a - other.a) as u8,
        }
    }

    /// Every channel of `self * k` stays within eight bits.
    pub open spec fn scaled_fits(self, k: u8) -> bool {
        self.r * k <= 255 && self.g * k <= 255 && self.b * k <= 255 && self.a * k <= 255
    }

    /// Every channel multiplied by `k`.
    pub open spec fn scaled(self, k: u8) -> Color32 {
        Color32 {
            r: (self.r * k) as u8,
            g: (self.g * k) as u8,
            b: (self.b * k) as u8,
            a: (self.a * k) as u8,
        }
    }

    /// Every channel divided by `k`, rounding down.
    pub open spec fn divided(self, k: u8) -> Color32 {
        Color32 {
            r: (self.r / k) as u8,
            g: (self.g / k) as u8,
            b: (self.b / k) as u8,
            a: (self.a / k) as u8,
        }
    }

    pub fn new(r: u8, g: u8, b: u8, a: u8) -> (c: Self)
        ensures
            c.r == r && c.g == g && c.b == b && c.a == a,
    {
        Color32 { r, g, b, a }
    }
}

impl std::ops::Add for Color32 {
    type Output = Color32;

    fn add(self, other: Color32) -> (c: Color32) {
        Color32 { r: self.r + other.r, g: self.g + other.g, b: self.b + other.b, a: self.a + other.a }
    }
}

impl vstd::std_specs::ops::AddSpecImpl for Color32 {
    open spec fn obeys_add_spec() -> bool {
        true
    }

    open spec fn add_req(self, other: Color32) -> bool {
        self.sum_fits(other)
    }

    open spec fn add_spec(self, other: Color32) -> Color32 {
        self.sum(other)
    }
}

impl std::ops::AddAssign for Color32 {
    fn add_assign(&mut self, other: Color32)
        requires
            old(self).sum_fits(other),
        ensures
            *final(self) == old(self).sum(other),
    {
        *self = *self + other;
    }
}

impl std::ops::Sub for Color32 {
    type Output = Color32;

    fn sub(self, other: Color32) -> (c: Color32) {
        Color32 { r: self.r - other.r, g: self.g - other.g, b: self.b - other.b, a: self.a - other.a }
    }
}

impl vstd::std_specs::ops::SubSpecImpl for Color32 {
    open spec fn obeys_sub_spec() -> bool {
        true
    }

    open spec fn sub_req(self, other: Color32) -> bool {
        self.difference_fits(other)
    }

    open spec fn sub_spec(self, other: Color32) -> Color32 {
        self.difference(other)
    }
}

impl std::ops::SubAssign for Color32 {
    fn sub_assign(&mut self, other: Color32)
        requires
            old(self).difference_fits(other),
        ensures
            *final(self) == old(self).difference(other),
    {
        *self = *self - other;
    }
}

impl std::ops::Mul<u8> for Color32 {
    type Output = Color32;

    fn mul(self, k: u8) -> (c: Color32) {
        Color32 { r: self.r * k, g: self.g * k, b: self.b * k, a: self.a * k }
    }
}

impl vstd::std_specs::ops::MulSpecImpl<u8> for Color32 {
    open spec fn obeys_mul_spec() -> bool {
        true
    }

    open spec fn mul_req(self, k: u8) -> bool {
        self.scaled_fits(k)
    }

    open spec fn mul_spec(self, k: u8) -> Color32 {
        self.scaled(k)
    }
}

impl std::ops::MulAssign<u8> for Color32 {
    fn mul_assign(&mut self, k: u8)
        requires
            old(self).scaled_fits(k),
        ensures
            *final(self) == old(self).scaled(k),
    {
        *self = *self * k;
    }
}

impl std::ops::Div<u8> for Color32 {
    type Output = Color32;

    fn div(self, k: u8) -> (c: Color32) {
        Color32 { r: self.r / k, g: self.g / k, b: self.b / k, a: self.a / k }
    }
}

impl vstd::std_specs::ops::DivSpecImpl<u8> for Color32 {
    open spec fn obeys_div_spec() -> bool {
        true
    }

    open spec fn div_req(self, k: u8) -> bool {
        k != 0
    }

    open spec fn div_spec(self, k: u8) -> Color32 {
        self.divided(k)
    }
}

impl std::ops::DivAssign<u8> for Color32 {
    fn div_assign(&mut self, k: u8)
        requires
            k != 0,
        ensures
            *final(self) == old(self).divided(k),
    {
        *self = *self / k;
    }
}

} // verus!

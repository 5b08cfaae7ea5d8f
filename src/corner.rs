use vstd::prelude::*;

verus! {

/// The role of a wheel module on the chassis.
///
/// Body frame: x grows to the right, y grows forward, origin at the
/// geometric center of the four modules.
#[derive(Clone, Copy, Debug, PartialEq, Eq, Structural)]
pub enum Corner {
    FrontLeft,
    FrontRight,
    RearLeft,
    RearRight,
}

impl Corner {
    /// Whether the module sits on the left (negative x) half.
    pub open spec fn spec_is_left(self) -> bool {
        self is FrontLeft || self is RearLeft
    }

    /// Whether the module sits on the front (positive y) half.
    pub open spec fn spec_is_front(self) -> bool {
        self is FrontLeft || self is FrontRight
    }

    /// Sign of the module's x coordinate: -1 on the left, +1 on the right.
    pub open spec fn spec_x_sign(self) -> int {
        if self.spec_is_left() { -1 } else { 1 }
    }

    /// Sign of the module's y coordinate: +1 at the front, -1 at the rear.
    pub open spec fn spec_y_sign(self) -> int {
        if self.spec_is_front() { 1 } else { -1 }
    }

    /// The corner diagonally across the chassis.
    pub open spec fn spec_opposite(self) -> Corner {
        match self {
            Corner::FrontLeft => Corner::RearRight,
            Corner::FrontRight => Corner::RearLeft,
            Corner::RearLeft => Corner::FrontRight,
            Corner::RearRight => Corner::FrontLeft,
        }
    }

    /// Position of the corner in the fixed order front-left, front-right,
    /// rear-left, rear-right.
    pub open spec fn spec_index(self) -> int {
        match self {
            Corner::FrontLeft => 0,
            Corner::FrontRight => 1,
            Corner::RearLeft => 2,
            Corner::RearRight => 3,
        }
    }

    pub fn is_left(self) -> (r: bool)
        ensures
            r == self.spec_is_left(),
    {
        match self {
            Corner::FrontLeft | Corner::RearLeft => true,
            Corner::FrontRight | Corner::RearRight => false,
        }
    }

    pub fn is_front(self) -> (r: bool)
        ensures
            r == self.spec_is_front(),
    {
        match self {
            Corner::FrontLeft | Corner::FrontRight => true,
            Corner::RearLeft | Corner::RearRight => false,
        }
    }

    pub fn x_sign(self) -> (r: i8)
        ensures
            r == self.spec_x_sign(),
    {
        if self.is_left() { -1 } else { 1 }
    }

    pub fn y_sign(self) -> (r: i8)
        ensures
            r == self.spec_y_sign(),
    {
        if self.is_front() { 1 } else { -1 }
    }

    pub fn opposite(self) -> (r: Corner)
        ensures
            r == self.spec_opposite(),
    {
        match self {
            Corner::FrontLeft => Corner::RearRight,
            Corner::FrontRight => Corner::RearLeft,
            Corner::RearLeft => Corner::FrontRight,
            Corner::RearRight => Corner::FrontLeft,
        }
    }

    pub fn index(self) -> (r: usize)
        ensures
            r == self.spec_index(),
    {
        match self {
            Corner::FrontLeft => 0,
            Corner::FrontRight => 1,
            Corner::RearLeft => 2,
            Corner::RearRight => 3,
        }
    }

    /// The corner at position `i` of the fixed order.
    pub fn from_index(i: usize) -> (r: Option<Corner>)
        ensures
            i < 4 <==> r is Some,
            r matches Some(c) ==> c.spec_index() == i,
    {
        if i == 0 {
            Some(Corner::FrontLeft)
        } else if i == 1 {
            Some(Corner::FrontRight)
        } else if i == 2 {
            Some(Corner::RearLeft)
        } else if i == 3 {
            Some(Corner::RearRight)
        } else {
            None
        }
    }
}

/// The module at the diagonally opposite corner is the point reflection of
/// this one through the body center: both coordinate signs flip.
pub proof fn lemma_opposite_is_point_reflection(c: Corner)
    ensures
        c.spec_opposite().spec_x_sign() == -c.spec_x_sign(),
        c.spec_opposite().spec_y_sign() == -c.spec_y_sign(),
        c.spec_opposite() != c,
{
}

/// Taking the opposite corner twice gives back the corner.
pub proof fn lemma_opposite_involution(c: Corner)
    ensures
        c.spec_opposite().spec_opposite() == c,
{
}

/// A corner is fixed by its two coordinate signs, and the index order lists
/// each corner once.
pub proof fn lemma_corner_determined_by_signs(a: Corner, b: Corner)
    ensures
        (a.spec_x_sign() == b.spec_x_sign() && a.spec_y_sign() == b.spec_y_sign()) <==> a == b,
        (a.spec_index() == b.spec_index()) <==> a == b,
        0 <= a.spec_index() < 4,
{
}

} // verus!

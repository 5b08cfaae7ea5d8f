use vstd::prelude::*;

use crate::corner::Corner;

verus! {

/// A point or vector in the body frame.
#[derive(Clone, Copy, Debug, PartialEq, Eq)]
pub struct Position2D<T> {
    pub x: T,
    pub y: T,
}

impl<T> Position2D<T> {
    pub fn new(x: T, y: T) -> (r: Self)
        ensures
            r == (Position2D { x, y }),
    {
        Position2D { x, y }
    }
}

/// One wheel module: its fixed position on the chassis and its latest
/// commanded speed and steering angle.
#[derive(Clone, Copy, Debug, PartialEq, Eq)]
pub struct SwerveUnit<T> {
    pub position: Position2D<T>,
    pub steer_theta: T,
    pub velocity: T,
}

impl<T> SwerveUnit<T> {
    /// A module at `(x, y)` whose speed and steering angle both start at
    /// `idle`.
    pub fn new(x: T, y: T, idle: T) -> (r: Self)
        where
            T: Copy,
        ensures
            r.position == (Position2D { x, y }),
            r.velocity == idle,
            r.steer_theta == idle,
    {
        SwerveUnit { position: Position2D::new(x, y), steer_theta: idle, velocity: idle }
    }

    /// The module's commanded output, as `(speed, steering angle)`.
    pub open spec fn spec_target(self) -> (T, T) {
        (self.velocity, self.steer_theta)
    }
}

/// The four wheel modules of a swerve base. Module positions are fixed when
/// the driver is built; every later update rewrites only the commanded
/// outputs.
#[derive(Debug)]
pub struct SwerveDriver<T> {
    front_left: SwerveUnit<T>,
    front_right: SwerveUnit<T>,
    rear_left: SwerveUnit<T>,
    rear_right: SwerveUnit<T>,
}

/// The position of corner `c` on a chassis whose left modules sit at
/// `x == left`, right modules at `x == right`, front modules at
/// `y == front` and rear modules at `y == rear`.
pub open spec fn corner_position<T>(c: Corner, left: T, right: T, front: T, rear: T) -> Position2D<T> {
    Position2D {
        x: if c.spec_is_left() { left } else { right },
        y: if c.spec_is_front() { front } else { rear },
    }
}

impl<T> SwerveDriver<T> {
    /// The module at corner `c`.
    pub closed spec fn spec_unit(self, c: Corner) -> SwerveUnit<T> {
        match c {
            Corner::FrontLeft => self.front_left,
            Corner::FrontRight => self.front_right,
            Corner::RearLeft => self.rear_left,
            Corner::RearRight => self.rear_right,
        }
    }

    /// Every module stands where the rectangle `left, right, front, rear`
    /// puts its corner.
    pub open spec fn laid_out(self, left: T, right: T, front: T, rear: T) -> bool {
        forall|c: Corner| #[trigger] self.spec_unit(c).position == corner_position(c, left, right, front, rear)
    }

    /// The two drivers have their modules at the same positions.
    pub open spec fn same_positions(self, other: Self) -> bool {
        forall|c: Corner| #[trigger] self.spec_unit(c).position == other.spec_unit(c).position
    }

    /// A driver whose modules stand at the corners of the rectangle
    /// `left, right, front, rear`, every output starting at `idle`.
    pub fn with_layout(left: T, right: T, front: T, rear: T, idle: T) -> (r: Self)
        where
            T: Copy,
        ensures
            r.laid_out(left, right, front, rear),
            forall|c: Corner| #[trigger] r.spec_unit(c).spec_target() == (idle, idle),
    {
        SwerveDriver {
            front_left: SwerveUnit::new(left, front, idle),
            front_right: SwerveUnit::new(right, front, idle),
            rear_left: SwerveUnit::new(left, rear, idle),
            rear_right: SwerveUnit::new(right, rear, idle),
        }
    }

    /// The module at corner `c`.
    pub fn unit(&self, c: Corner) -> (r: &SwerveUnit<T>)
        ensures
            *r == self.spec_unit(c),
    {
        match c {
            Corner::FrontLeft => &self.front_left,
            Corner::FrontRight => &self.front_right,
            Corner::RearLeft => &self.rear_left,
            Corner::RearRight => &self.rear_right,
        }
    }

    /// The fixed position of the module at corner `c`.
    pub fn position(&self, c: Corner) -> (r: Position2D<T>)
        where
            T: Copy,
        ensures
            r == self.spec_unit(c).position,
    {
        self.unit(c).position
    }

    /// The latest `(speed, steering angle)` of the module at corner `c`.
    pub fn target(&self, c: Corner) -> (r: (T, T))
        where
            T: Copy,
        ensures
            r == self.spec_unit(c).spec_target(),
    {
        let u = self.unit(c);
        (u.velocity, u.steer_theta)
    }

    /// The latest `(speed, steering angle)` of the front-left module.
    pub fn get_front_left_target(&self) -> (r: (T, T))
        where
            T: Copy,
        ensures
            r == self.spec_unit(Corner::FrontLeft).spec_target(),
    {
        self.target(Corner::FrontLeft)
    }

    /// The latest `(speed, steering angle)` of the front-right module.
    pub fn get_front_right_target(&self) -> (r: (T, T))
        where
            T: Copy,
        ensures
            r == self.spec_unit(Corner::FrontRight).spec_target(),
    {
        self.target(Corner::FrontRight)
    }

    /// The latest `(speed, steering angle)` of the rear-left module.
    pub fn get_rear_left_target(&self) -> (r: (T, T))
        where
            T: Copy,
        ensures
            r == self.spec_unit(Corner::RearLeft).spec_target(),
    {
        self.target(Corner::RearLeft)
    }

    /// The latest `(speed, steering angle)` of the rear-right module.
    pub fn get_rear_right_target(&self) -> (r: (T, T))
        where
            T: Copy,
        ensures
            r == self.spec_unit(Corner::RearRight).spec_target(),
    {
        self.target(Corner::RearRight)
    }

    /// Commands one module; the other three and every position stay as
    /// they were.
    pub fn set_target(&mut self, c: Corner, velocity: T, steer_theta: T)
        ensures
            final(self).same_positions(*old(self)),
            final(self).spec_unit(c).spec_target() == (velocity, steer_theta),
            forall|o: Corner| o != c ==> #[trigger] final(self).spec_unit(o) == old(self).spec_unit(o),
    {
        match c {
            Corner::FrontLeft => {
                self.front_left.velocity = velocity;
                self.front_left.steer_theta = steer_theta;
            },
            Corner::FrontRight => {
                self.front_right.velocity = velocity;
                self.front_right.steer_theta = steer_theta;
            },
            Corner::RearLeft => {
                self.rear_left.velocity = velocity;
                self.rear_left.steer_theta = steer_theta;
            },
            Corner::RearRight => {
                self.rear_right.velocity = velocity;
                self.rear_right.steer_theta = steer_theta;
            },
        }
    }

    /// Commands every module to the same speed and steering angle, as a
    /// base that translates without turning needs.
    pub fn set_uniform(&mut self, velocity: T, steer_theta: T)
        where
            T: Copy,
        ensures
            final(self).same_positions(*old(self)),
            forall|c: Corner| #[trigger] final(self).spec_unit(c).spec_target() == (velocity, steer_theta),
    {
        self.set_target(Corner::FrontLeft, velocity, steer_theta);
        self.set_target(Corner::FrontRight, velocity, steer_theta);
        self.set_target(Corner::RearLeft, velocity, steer_theta);
        self.set_target(Corner::RearRight, velocity, steer_theta);
    }

    /// Commands each module with `rule` applied to that module's own
    /// position, which `rule` maps to `(speed, steering angle)`.
    pub fn set_each<F: Fn(Position2D<T>) -> (T, T)>(&mut self, rule: &F)
        where
            T: Copy,
        requires
            forall|c: Corner| rule.requires((#[trigger] old(self).spec_unit(c).position,)),
        ensures
            final(self).same_positions(*old(self)),
            forall|c: Corner|
                rule.ensures(
                    (old(self).spec_unit(c).position,),
                    #[trigger] final(self).spec_unit(c).spec_target(),
                ),
    {
        assert(rule.requires((self.spec_unit(Corner::FrontLeft).position,)));
        assert(rule.requires((self.spec_unit(Corner::FrontRight).position,)));
        assert(rule.requires((self.spec_unit(Corner::RearLeft).position,)));
        assert(rule.requires((self.spec_unit(Corner::RearRight).position,)));
        let fl = rule(self.front_left.position);
        let fr = rule(self.front_right.position);
        let rl = rule(self.rear_left.position);
        let rr = rule(self.rear_right.position);
        self.set_target(Corner::FrontLeft, fl.0, fl.1);
        self.set_target(Corner::FrontRight, fr.0, fr.1);
        self.set_target(Corner::RearLeft, rl.0, rl.1);
        self.set_target(Corner::RearRight, rr.0, rr.1);
    }
}

/// On a laid-out chassis the module across the diagonal from corner `c`
/// takes the other extent on both axes: with `left == -right` and
/// `rear == -front` it is the point reflection of `c` through the center.
pub proof fn lemma_opposite_corners_swap_extents<T>(
    d: SwerveDriver<T>,
    left: T,
    right: T,
    front: T,
    rear: T,
)
    requires
        d.laid_out(left, right, front, rear),
    ensures
        forall|c: Corner|
            #[trigger] d.spec_unit(c.spec_opposite()).position == corner_position(
                c,
                right,
                left,
                rear,
                front,
            ),
{
    assert forall|c: Corner| #[trigger]
        d.spec_unit(c.spec_opposite()).position == corner_position(c, right, left, rear, front) by {
        assert(d.spec_unit(c.spec_opposite()).position == corner_position(
            c.spec_opposite(),
            left,
            right,
            front,
            rear,
        ));
    }
}

/// Updates never move a module: a driver with the same positions as a
/// laid-out one is laid out on the same rectangle.
pub proof fn lemma_layout_kept<T>(
    before: SwerveDriver<T>,
    after: SwerveDriver<T>,
    left: T,
    right: T,
    front: T,
    rear: T,
)
    requires
        before.laid_out(left, right, front, rear),
        after.same_positions(before),
    ensures
        after.laid_out(left, right, front, rear),
{
    assert forall|c: Corner| #[trigger]
        after.spec_unit(c).position == corner_position(c, left, right, front, rear) by {
        assert(before.spec_unit(c).position == corner_position(c, left, right, front, rear));
    }
}

} // verus!

//! Small value types of the scene: voxels, movement directions, frame time.
use vstd::prelude::*;

verus! {

/// Kinds of voxel a world is made of.
#[derive(Debug, Clone, Copy, PartialEq, Eq, Structural)]
pub enum Voxel {
    Air,
    Stone,
    Dirt,
    Grass,
}

impl Voxel {
    /// Every voxel lets no light through but air.
    pub fn is_opaque(&self) -> (r: bool)
        ensures
            r == !(*self is Air),
    {
        !matches!(self, Voxel::Air)
    }
}

/// A direction of movement relative to the camera.
#[derive(Debug, Clone, Copy, PartialEq, Eq, Structural)]
pub enum Direction {
    Left,
    Right,
    Down,
    Up,
    Back,
    Forward,
}

/// Frame timing, in nanoseconds of a monotonic clock.
#[derive(Debug, Clone, Copy)]
pub struct Time {
    start: u64,
    last: u64,
    current: u64,
}

impl Time {
    pub closed spec fn spec_start(&self) -> u64 {
        self.start
    }

    pub closed spec fn spec_last(&self) -> u64 {
        self.last
    }

    pub closed spec fn spec_current(&self) -> u64 {
        self.current
    }

    #[verifier::type_invariant]
    spec fn inv(self) -> bool {
        self.start <= self.last <= self.current
    }

    /// Timing that starts at `now`.
    pub fn new(now: u64) -> (r: Self)
        ensures
            r.spec_start() == now,
            r.spec_last() == now,
            r.spec_current() == now,
    {
        Time { start: now, last: now, current: now }
    }

    /// A new frame began at `now`.
    pub fn update(&mut self, now: u64)
        requires
            old(self).spec_current() <= now,
        ensures
            final(self).spec_start() == old(self).spec_start(),
            final(self).spec_last() == old(self).spec_current(),
            final(self).spec_current() == now,
    {
        proof {
            use_type_invariant(&*self);
        }
        self.last = self.current;
        self.current = now;
    }

    /// Nanoseconds between the last two frames.
    pub fn delta(&self) -> (r: u64)
        ensures
            r == self.spec_current() - self.spec_last(),
    {
        proof {
            use_type_invariant(self);
        }
        self.current - self.last
    }

    /// Nanoseconds since timing started.
    pub fn elapsed(&self) -> (r: u64)
        ensures
            r == self.spec_current() - self.spec_start(),
    {
        proof {
            use_type_invariant(self);
        }
        self.current - self.start
    }

    /// When the current frame began.
    pub fn current(&self) -> (r: u64)
        ensures
            r == self.spec_current(),
    {
        self.current
    }
}

} // verus!

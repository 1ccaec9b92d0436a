//! Containers for id segments.

use vstd::prelude::*;

verus! {

/// Container for storing id segments: a wrapper around an array with a
/// fixed size.
#[derive(Clone, Copy, Debug)]
pub struct Segments<T, const N: usize>(pub [T; N]);

impl<T, const N: usize> Segments<T, N> {
    /// References the inner array.
    pub fn inner(&self) -> (r: &[T; N])
        ensures
            r == self.0,
    {
        &self.0
    }

    /// Returns the inner array.
    pub fn into_inner(self) -> (r: [T; N])
        ensures
            r == self.0,
    {
        self.0
    }
}

impl<T> Segments<T, 1> {
    /// Creates a container from 1 segment.
    pub fn from_parts(p: T) -> (r: Self)
        ensures
            r.0@ == seq![p],
    {
        proof {
            assert(seq![p] =~= [p]@);
        }
        Segments([p])
    }

    /// References the primary (first) segment.
    pub fn primary(&self) -> (r: &T)
        ensures
            *r == self.0@[0],
    {
        &self.0[0]
    }
}

impl<T> Segments<T, 2> {
    /// Creates a container from 2 segments.
    pub fn from_parts(p: T, s: T) -> (r: Self)
        ensures
            r.0@ == seq![p, s],
    {
        proof {
            assert(seq![p, s] =~= [p, s]@);
        }
        Segments([p, s])
    }

    /// References the primary (first) segment.
    pub fn primary(&self) -> (r: &T)
        ensures
            *r == self.0@[0],
    {
        &self.0[0]
    }

    /// References the secondary (second) segment.
    pub fn secondary(&self) -> (r: &T)
        ensures
            *r == self.0@[1],
    {
        &self.0[1]
    }
}

impl<T> Segments<T, 3> {
    /// Creates a container from 3 segments.
    pub fn from_parts(p: T, s: T, t: T) -> (r: Self)
        ensures
            r.0@ == seq![p, s, t],
    {
        proof {
            assert(seq![p, s, t] =~= [p, s, t]@);
        }
        Segments([p, s, t])
    }

    /// References the primary (first) segment.
    pub fn primary(&self) -> (r: &T)
        ensures
            *r == self.0@[0],
    {
        &self.0[0]
    }

    /// References the secondary (second) segment.
    pub fn secondary(&self) -> (r: &T)
        ensures
            *r == self.0@[1],
    {
        &self.0[1]
    }

    /// References the tertiary (third) segment.
    pub fn tertiary(&self) -> (r: &T)
        ensures
            *r == self.0@[2],
    {
        &self.0[2]
    }
}

} // verus!

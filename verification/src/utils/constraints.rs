//! The min/max size envelope passed top-down during layout.

use vstd::prelude::*;

use crate::utils::geometry::Size;

verus! {

/// A box constraint: a measured size is clamped into `[min, max]`
/// independently per axis.
#[derive(Clone, Copy, Debug, PartialEq, Eq, Structural)]
pub struct Constraints {
    pub min: Size,
    pub max: Size,
}

/// `v` bounded into `[lo, hi]`, raising to `lo` first, then capping at `hi`
/// (so `hi` wins when `lo > hi`).
pub open spec fn spec_clamp_dim(v: u32, lo: u32, hi: u32) -> u32 {
    let raised = if v > lo {
        v
    } else {
        lo
    };
    if raised < hi {
        raised
    } else {
        hi
    }
}

impl Constraints {
    /// The loosest constraint below a maximum: anything from zero up to `size`.
    pub fn up_to(size: Size) -> (c: Constraints)
        ensures
            c == (Constraints { min: Size { width: 0u32, height: 0u32 }, max: size }),
    {
        Constraints { min: Size { width: 0, height: 0 }, max: size }
    }

    /// The constraint with `size` reserved: the minimum grows (saturating),
    /// the maximum is unchanged.
    pub open spec fn spec_shrink(self, size: Size) -> Constraints {
        Constraints { min: self.min.spec_saturating_add(size), max: self.max }
    }

    pub fn shrink(self, size: &Size) -> (c: Constraints)
        ensures
            c == self.spec_shrink(*size),
    {
        Constraints {
            min: Size {
                width: self.min.width.saturating_add(size.width),
                height: self.min.height.saturating_add(size.height),
            },
            max: self.max,
        }
    }

    /// `size` bounded into the constraint box, per axis.
    pub open spec fn spec_clamp(self, size: Size) -> Size {
        Size {
            width: spec_clamp_dim(size.width, self.min.width, self.max.width),
            height: spec_clamp_dim(size.height, self.min.height, self.max.height),
        }
    }

    pub fn clamp(&self, size: &Size) -> (s: Size)
        ensures
            s == self.spec_clamp(*size),
    {
        let width = if size.width > self.min.width {
            size.width
        } else {
            self.min.width
        };
        let width = if width < self.max.width {
            width
        } else {
            self.max.width
        };
        let height = if size.height > self.min.height {
            size.height
        } else {
            self.min.height
        };
        let height = if height < self.max.height {
            height
        } else {
            self.max.height
        };
        Size { width, height }
    }
}

/// Clamping a size into a constraint box is idempotent: clamping an
/// already-clamped size changes nothing, for every constraint, even one
/// whose minimum exceeds its maximum.
pub proof fn lemma_clamp_idempotent(c: Constraints, s: Size)
    ensures
        c.spec_clamp(c.spec_clamp(s)) == c.spec_clamp(s),
{
}

} // verus!

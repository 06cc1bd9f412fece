use vstd::prelude::*;

verus! {

/// A coordinate axis, named by a marker type.
pub trait Axis: Clone + core::fmt::Debug + Sync + Send {
    /// The index of the axis: 0 for x, 1 for y, 2 for z.
    spec fn index() -> nat;

    /// The index of the axis as a coordinate position.
    fn value() -> (r: usize)
        ensures
            r == Self::index(),
            r < 3,
    ;
}

/// The x axis.
#[derive(Clone, Debug)]
pub struct AxisX {}

impl Axis for AxisX {
    open spec fn index() -> nat {
        0
    }

    fn value() -> (r: usize) {
        0
    }
}

/// The y axis.
#[derive(Clone, Debug)]
pub struct AxisY {}

impl Axis for AxisY {
    open spec fn index() -> nat {
        1
    }

    fn value() -> (r: usize) {
        1
    }
}

/// The z axis.
#[derive(Clone, Debug)]
pub struct AxisZ {}

impl Axis for AxisZ {
    open spec fn index() -> nat {
        2
    }

    fn value() -> (r: usize) {
        2
    }
}

/// Smoothing parameters of composite fields: the fraction of the smoothing
/// band in which normals are blended, and the factor that turns a smoothing
/// radius into that band.
pub struct PrimitiveParameters<S> {
    pub fade_range: S,
    pub r_multiplier: S,
}

} // verus!

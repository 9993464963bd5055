use vstd::prelude::*;

use crate::math::{V3, Vec3};

verus! {

/// Position and orientation of an entity.
///
/// Orientation is carried as `look`: the (not necessarily unit) forward
/// vector. The host derives its rotation representation from `look` together
/// with the fixed world up axis; keeping the direction as plain integers lets
/// every statement about orientation be exact.
#[derive(Clone, Copy, PartialEq, Eq, Structural, Debug)]
pub struct Pose {
    pub position: Vec3,
    pub look: Vec3,
}

/// The mathematical model of a [`Pose`].
pub ghost struct PoseV {
    pub position: V3,
    pub look: V3,
}

impl View for Pose {
    type V = PoseV;

    open spec fn view(&self) -> PoseV {
        PoseV { position: self.position@, look: self.look@ }
    }
}

impl PoseV {
    /// A pose is well formed when its forward vector is not the zero vector,
    /// so a direction can always be read off it.
    pub open spec fn wf(self) -> bool {
        self.look != V3::zero()
    }
}

impl Pose {
    pub fn new(position: Vec3, look: Vec3) -> (p: Pose)
        ensures
            p@ == (PoseV { position: position@, look: look@ }),
    {
        Pose { position, look }
    }
}

} // verus!

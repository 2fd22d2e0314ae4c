//! The scene. It has no content yet; rendering takes it and does not look.

use vstd::prelude::*;

verus! {

/// The scene to render: a token without fields, owned by the host and lent
/// to each render call.
#[derive(Debug, PartialEq, Eq, Structural)]
pub struct World {}

impl World {
    /// A new, empty world.
    pub fn new() -> (world: World)
        ensures
            world == (World {  }),
    {
        World {  }
    }
}

} // verus!

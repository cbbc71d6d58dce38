use vstd::prelude::*;

verus! {

/// Which SVG scene a view is drawn with.
#[derive(Debug, Clone, Copy, PartialEq, Eq, Structural)]
pub enum SceneKind {
    Splash,
    Loading,
    Home,
    Training,
    Court,
    Dating,
    Result,
}

} // verus!

use vstd::prelude::*;

pub mod collider;
pub mod impulse_joint;

verus! {

pub struct RapierMirrorsPlugins;

} // verus!

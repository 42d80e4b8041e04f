use vstd::prelude::*;

verus! {

/// The material of a hit record before the surface that was hit attaches its own. It only
/// fills the place: a correctly built scene never scatters light off it.
#[allow(non_camel_case_types)]
#[derive(Clone, Copy, Debug, PartialEq, Eq, Structural)]
pub struct Empty_mat {}

} // verus!

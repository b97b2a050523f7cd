//! Public system parameters for the AMAC scheme.
//!
//! The parameters supply one distinguished generator plus one generator per
//! attribute slot, all in the Ristretto prime-order group.  Their generation
//! is owned by a collaborating subsystem; this crate consumes them
//! read-only, and provides only enough of a constructor to stand up a
//! working instance.

use vstd::prelude::*;

use crate::group::Point;
use crate::group::point_wf;

verus! {

/// The public parameters of one AMAC instance: the number of attribute
/// slots, the generator `g_w` for the key's `w` component, and one generator
/// `g_m[i]` per attribute slot.
#[derive(Clone, Debug)]
pub struct SystemParameters {
    /// How many attribute slots a key generated under these parameters has.
    pub number_of_attributes: u32,
    /// The generator the key component `w` is committed to.
    pub g_w: Point,
    /// One generator per attribute slot, indexed like the attribute vector.
    pub g_m: Vec<Point>,
}

/// Well-formed parameters carry at least one attribute slot, a generator per
/// slot, and only valid group elements.
pub open spec fn system_parameters_wf(p: SystemParameters) -> bool {
    &&& 1 <= p.number_of_attributes
    &&& p.g_m@.len() == p.number_of_attributes
    &&& point_wf(p.g_w)
    &&& forall|i: int| 0 <= i < p.g_m@.len() ==> point_wf(#[trigger] p.g_m@[i])
}

impl SystemParameters {
    /// Generate parameters with `number_of_attributes` attribute slots,
    /// drawing each generator at random.
    pub fn generate(number_of_attributes: u32) -> (r: SystemParameters)
        requires
            1 <= number_of_attributes,
        ensures
            system_parameters_wf(r),
            r.number_of_attributes == number_of_attributes,
    {
        let g_w = Point::random();
        let mut g_m: Vec<Point> = Vec::new();
        let mut i: u32 = 0;
        while i < number_of_attributes
            invariant
                i <= number_of_attributes,
                g_m@.len() == i,
                forall|j: int| 0 <= j < g_m@.len() ==> point_wf(#[trigger] g_m@[j]),
            decreases number_of_attributes - i,
        {
            g_m.push(Point::random());
            i = i + 1;
        }
        SystemParameters { number_of_attributes, g_w, g_m }
    }
}

} // verus!

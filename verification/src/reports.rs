use vstd::prelude::*;

use crate::production::Shot;

verus! {

/// An exportable list of shots, in worksheet order.
pub struct ShotList(pub Vec<Shot>);

} // verus!

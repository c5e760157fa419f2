use vstd::prelude::*;

use crate::maps::EnemySpawn;
use crate::maps::map01::{definition, spec_map01};

verus! {

/// The enemies of the stand-alone test arena: the same two gunners and
/// fighter, at the same places, as in the first arena.
pub fn map_enemies() -> (spawns: Vec<EnemySpawn>)
    ensures
        spawns@ == spec_map01().1,
{
    definition().enemies
}

} // verus!

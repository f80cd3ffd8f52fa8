use vstd::prelude::*;

verus! {

/// Which side of the arena a fighter stands on.
///
/// The side decides where the fighter's visuals are placed and whether its
/// sprite is seen from the front or from the back.
#[derive(Clone, Copy, Debug, PartialEq, Eq, Structural)]
pub enum Allegiance {
    Ally,
    Enemy,
}

/// An immutable entry of the fighter registry: the base stats of one species.
pub struct FighterRecord {
    pub species_id: u32,
    pub name: String,
    pub level: u32,
    pub total_hit_points: u32,
}

impl FighterRecord {
    /// A usable record has a name and a positive base health.
    pub open spec fn wf(&self) -> bool {
        &&& self.name@.len() > 0
        &&& self.total_hit_points > 0
    }

    pub fn new(species_id: u32, name: String, level: u32, total_hit_points: u32) -> (r: Self)
        ensures
            r.species_id == species_id,
            r.name == name,
            r.level == level,
            r.total_hit_points == total_hit_points,
    {
        FighterRecord { species_id, name, level, total_hit_points }
    }
}

/// One fighter taking part in a displayed matchup.
pub struct FighterInstance {
    pub species_id: u32,
    pub name: String,
    pub level: u32,
    pub total_hit_points: u32,
    pub current_hit_points: u32,
    pub allegiance: Allegiance,
}

/// The instance that a record yields on a given side: the record's fields,
/// the side, and full health.
pub open spec fn instance_of(rec: FighterRecord, side: Allegiance) -> FighterInstance {
    FighterInstance {
        species_id: rec.species_id,
        name: rec.name,
        level: rec.level,
        total_hit_points: rec.total_hit_points,
        current_hit_points: rec.total_hit_points,
        allegiance: side,
    }
}

/// Derives a fresh side-tagged fighter from a registry record.
pub fn instantiate(rec: &FighterRecord, side: Allegiance) -> (r: FighterInstance)
    ensures
        r == instance_of(*rec, side),
        r.current_hit_points == r.total_hit_points,
        r.total_hit_points == rec.total_hit_points,
        r.allegiance == side,
{
    FighterInstance {
        species_id: rec.species_id,
        name: rec.name.clone(),
        level: rec.level,
        total_hit_points: rec.total_hit_points,
        current_hit_points: rec.total_hit_points,
        allegiance: side,
    }
}

/// An instantiation is determined by the record and the side alone, and it
/// yields a fighter standing on that side at full health.
pub proof fn lemma_instantiate_deterministic(rec: FighterRecord, side: Allegiance)
    ensures
        instance_of(rec, side).current_hit_points == instance_of(rec, side).total_hit_points,
        instance_of(rec, side).total_hit_points == rec.total_hit_points,
        instance_of(rec, side).allegiance == side,
{
}

} // verus!

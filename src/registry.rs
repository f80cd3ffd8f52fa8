use vstd::prelude::*;
use crate::fighter::FighterRecord;

verus! {

/// Number of species that the arena draws from: ids run from 1 to this value.
pub const ROSTER_SIZE: u32 = 151;

/// Why a list of records cannot form a registry.
#[derive(Clone, Copy, Debug, PartialEq, Eq, Structural)]
pub enum RegistryError {
    /// The record at this position has the wrong species id, no name, or no health.
    InvalidRecord { index: usize },
}

/// Why a registry lookup failed.
#[derive(Clone, Copy, Debug, PartialEq, Eq, Structural)]
pub enum LookupError {
    /// No species has this id.
    IdOutOfRange { id: u32 },
}

/// The record at position `i` of a registry holds species `i + 1` and is usable.
pub open spec fn record_fits(records: Seq<FighterRecord>, i: int) -> bool {
    &&& records[i].species_id == i + 1
    &&& records[i].wf()
}

/// Every record fits its position.
pub open spec fn records_valid(records: Seq<FighterRecord>) -> bool {
    forall|i: int| 0 <= i < records.len() ==> #[trigger] record_fits(records, i)
}

/// A read-only table from species ids `1..=len` to their base records.
pub struct FighterRegistry {
    records: Vec<FighterRecord>,
}

impl View for FighterRegistry {
    type V = Seq<FighterRecord>;

    closed spec fn view(&self) -> Seq<FighterRecord> {
        self.records@
    }
}

impl FighterRegistry {
    #[verifier::type_invariant]
    spec fn inv(&self) -> bool {
        records_valid(self.records@)
    }

    /// Whether `id` names a species of this registry.
    pub open spec fn has_id(&self, id: int) -> bool {
        1 <= id <= self@.len()
    }

    /// The record of species `id`.
    pub open spec fn record_of(&self, id: int) -> FighterRecord {
        self@[id - 1]
    }

    /// Builds a registry from records listed in species order, starting at id 1.
    /// Fails at the first record that has the wrong id, an empty name or no health.
    pub fn from_records(records: Vec<FighterRecord>) -> (r: Result<FighterRegistry, RegistryError>)
        ensures
            match r {
                Ok(reg) => records_valid(records@) && reg@ == records@,
                Err(RegistryError::InvalidRecord { index }) => {
                    &&& index < records@.len()
                    &&& !record_fits(records@, index as int)
                    &&& forall|j: int| 0 <= j < index ==> #[trigger] record_fits(records@, j)
                },
            },
    {
        let mut i: usize = 0;
        while i < records.len()
            invariant
                i <= records@.len(),
                forall|j: int| 0 <= j < i ==> #[trigger] record_fits(records@, j),
            decreases records@.len() - i,
        {
            let rec = &records[i];
            if i >= u32::MAX as usize || rec.species_id != (i + 1) as u32 || rec.name.as_str().is_empty()
                || rec.total_hit_points == 0 {
                proof {
                    if i < u32::MAX as usize {
                        assert(!record_fits(records@, i as int));
                    } else {
                        assert(rec.species_id <= u32::MAX);
                    }
                }
                return Err(RegistryError::InvalidRecord { index: i });
            }
            i = i + 1;
        }
        Ok(FighterRegistry { records })
    }

    /// Number of species in the registry.
    pub fn len(&self) -> (n: usize)
        ensures
            n == self@.len(),
    {
        self.records.len()
    }

    /// Looks up the base record of a species.
    pub fn lookup(&self, id: u32) -> (r: Result<&FighterRecord, LookupError>)
        ensures
            self.has_id(id as int) <==> r.is_ok(),
            match r {
                Ok(rec) => {
                    &&& *rec == self.record_of(id as int)
                    &&& rec.species_id == id
                    &&& rec.wf()
                },
                Err(e) => e == LookupError::IdOutOfRange { id },
            },
    {
        proof {
            use_type_invariant(self);
        }
        if id == 0 || id as usize > self.records.len() {
            return Err(LookupError::IdOutOfRange { id });
        }
        let rec = &self.records[(id - 1) as usize];
        proof {
            assert(record_fits(self.records@, id - 1));
        }
        Ok(rec)
    }
}

} // verus!

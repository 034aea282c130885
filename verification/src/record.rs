//! The record schema: one housing-price observation and a partial patch of it.
//!
//! Every measurement travels through this library as an opaque 32-bit code.
//! Callers encode their numeric value into a code on the way in and decode it
//! on the way out; the library itself only stores and moves codes, so nothing
//! here depends on what a code means. An absent code stands for "field not
//! supplied", which matters for partial updates, not for stored data.

use vstd::prelude::*;

verus! {

/// How many measurement columns a record has.
pub const FIELD_COUNT: usize = 9;

/// One housing-price observation. `id` is assigned by the store on insert:
/// it is `None` on a new record and `Some` on a persisted one.
#[derive(Clone, Copy, Debug, PartialEq, Eq, Structural)]
pub struct HousePrice {
    pub id: Option<i32>,
    pub med_inc: Option<u32>,
    pub house_age: Option<u32>,
    pub ave_rooms: Option<u32>,
    pub ave_bedrms: Option<u32>,
    pub population: Option<u32>,
    pub ave_occup: Option<u32>,
    pub latitude: Option<u32>,
    pub longitude: Option<u32>,
    pub med_house_val: Option<u32>,
}

/// The subset of measurement fields supplied to a partial update: a `Some`
/// field is to be overwritten, a `None` field left alone.
#[derive(Clone, Copy, Debug, PartialEq, Eq, Structural)]
pub struct FieldPatch {
    pub med_inc: Option<u32>,
    pub house_age: Option<u32>,
    pub ave_rooms: Option<u32>,
    pub ave_bedrms: Option<u32>,
    pub population: Option<u32>,
    pub ave_occup: Option<u32>,
    pub latitude: Option<u32>,
    pub longitude: Option<u32>,
    pub med_house_val: Option<u32>,
}

/// The column name of measurement field `j`, in the fixed column order shared
/// by the table schema, the INSERT and UPDATE statements and the CSV header.
pub open spec fn field_name(j: int) -> Seq<char> {
    if j == 0 {
        "MedInc"@
    } else if j == 1 {
        "HouseAge"@
    } else if j == 2 {
        "AveRooms"@
    } else if j == 3 {
        "AveBedrms"@
    } else if j == 4 {
        "Population"@
    } else if j == 5 {
        "AveOccup"@
    } else if j == 6 {
        "Latitude"@
    } else if j == 7 {
        "Longitude"@
    } else {
        "MedHouseVal"@
    }
}

/// The column name of measurement field `j` as a string slice.
pub fn column_name(j: usize) -> (r: &'static str)
    requires
        j < FIELD_COUNT,
    ensures
        r@ == field_name(j as int),
{
    let r: &'static str = if j == 0 {
        "MedInc"
    } else if j == 1 {
        "HouseAge"
    } else if j == 2 {
        "AveRooms"
    } else if j == 3 {
        "AveBedrms"
    } else if j == 4 {
        "Population"
    } else if j == 5 {
        "AveOccup"
    } else if j == 6 {
        "Latitude"
    } else if j == 7 {
        "Longitude"
    } else {
        "MedHouseVal"
    };
    proof {
        if j == 0 {
            assert(r@ =~= field_name(j as int));
        } else if j == 1 {
            assert(r@ =~= field_name(j as int));
        } else if j == 2 {
            assert(r@ =~= field_name(j as int));
        } else if j == 3 {
            assert(r@ =~= field_name(j as int));
        } else if j == 4 {
            assert(r@ =~= field_name(j as int));
        } else if j == 5 {
            assert(r@ =~= field_name(j as int));
        } else if j == 6 {
            assert(r@ =~= field_name(j as int));
        } else if j == 7 {
            assert(r@ =~= field_name(j as int));
        } else {
            assert(r@ =~= field_name(j as int));
        }
    }
    r
}

impl HousePrice {
    /// The nine measurement fields in column order.
    pub open spec fn measurements(self) -> Seq<Option<u32>> {
        seq![
            self.med_inc,
            self.house_age,
            self.ave_rooms,
            self.ave_bedrms,
            self.population,
            self.ave_occup,
            self.latitude,
            self.longitude,
            self.med_house_val,
        ]
    }

    /// `self` with its identifier replaced.
    pub open spec fn with_id(self, id: i32) -> HousePrice {
        HousePrice { id: Some(id), ..self }
    }
}

impl FieldPatch {
    /// The field supplied for column `j`, if any.
    pub open spec fn field(self, j: int) -> Option<u32> {
        if j == 0 {
            self.med_inc
        } else if j == 1 {
            self.house_age
        } else if j == 2 {
            self.ave_rooms
        } else if j == 3 {
            self.ave_bedrms
        } else if j == 4 {
            self.population
        } else if j == 5 {
            self.ave_occup
        } else if j == 6 {
            self.latitude
        } else if j == 7 {
            self.longitude
        } else {
            self.med_house_val
        }
    }

    /// True when the patch supplies no field at all.
    pub open spec fn spec_is_empty(self) -> bool {
        forall|j: int| 0 <= j < FIELD_COUNT ==> self.field(j) is None
    }

    /// A patch that supplies no field.
    pub fn empty() -> (r: FieldPatch)
        ensures
            r.spec_is_empty(),
    {
        let r = FieldPatch {
            med_inc: None,
            house_age: None,
            ave_rooms: None,
            ave_bedrms: None,
            population: None,
            ave_occup: None,
            latitude: None,
            longitude: None,
            med_house_val: None,
        };
        assert forall|j: int| 0 <= j < FIELD_COUNT implies r.field(j) is None by {
        }
        r
    }

    /// The field supplied for column `j`, if any.
    pub fn field_at(&self, j: usize) -> (r: Option<u32>)
        requires
            j < FIELD_COUNT,
        ensures
            r == self.field(j as int),
    {
        if j == 0 {
            self.med_inc
        } else if j == 1 {
            self.house_age
        } else if j == 2 {
            self.ave_rooms
        } else if j == 3 {
            self.ave_bedrms
        } else if j == 4 {
            self.population
        } else if j == 5 {
            self.ave_occup
        } else if j == 6 {
            self.latitude
        } else if j == 7 {
            self.longitude
        } else {
            self.med_house_val
        }
    }

    /// True when the patch supplies no field at all.
    pub fn is_empty(&self) -> (r: bool)
        ensures
            r == self.spec_is_empty(),
    {
        let r = self.med_inc.is_none() && self.house_age.is_none() && self.ave_rooms.is_none()
            && self.ave_bedrms.is_none() && self.population.is_none() && self.ave_occup.is_none()
            && self.latitude.is_none() && self.longitude.is_none()
            && self.med_house_val.is_none();
        if r {
            assert forall|j: int| 0 <= j < FIELD_COUNT implies self.field(j) is None by {
            }
        } else {
            proof {
                if self.med_inc is Some {
                    assert(self.field(0) is Some);
                } else if self.house_age is Some {
                    assert(self.field(1) is Some);
                } else if self.ave_rooms is Some {
                    assert(self.field(2) is Some);
                } else if self.ave_bedrms is Some {
                    assert(self.field(3) is Some);
                } else if self.population is Some {
                    assert(self.field(4) is Some);
                } else if self.ave_occup is Some {
                    assert(self.field(5) is Some);
                } else if self.latitude is Some {
                    assert(self.field(6) is Some);
                } else if self.longitude is Some {
                    assert(self.field(7) is Some);
                } else {
                    assert(self.field(8) is Some);
                }
            }
        }
        r
    }
}

/// `rec` after the patch: each supplied field is overwritten, every other
/// field and the identifier keep their prior value.
pub open spec fn spec_apply_patch(rec: HousePrice, p: FieldPatch) -> HousePrice {
    HousePrice {
        id: rec.id,
        med_inc: if p.med_inc is Some { p.med_inc } else { rec.med_inc },
        house_age: if p.house_age is Some { p.house_age } else { rec.house_age },
        ave_rooms: if p.ave_rooms is Some { p.ave_rooms } else { rec.ave_rooms },
        ave_bedrms: if p.ave_bedrms is Some { p.ave_bedrms } else { rec.ave_bedrms },
        population: if p.population is Some { p.population } else { rec.population },
        ave_occup: if p.ave_occup is Some { p.ave_occup } else { rec.ave_occup },
        latitude: if p.latitude is Some { p.latitude } else { rec.latitude },
        longitude: if p.longitude is Some { p.longitude } else { rec.longitude },
        med_house_val: if p.med_house_val is Some { p.med_house_val } else { rec.med_house_val },
    }
}

/// Apply a partial patch to a record.
pub fn apply_patch(rec: &HousePrice, p: &FieldPatch) -> (r: HousePrice)
    ensures
        r == spec_apply_patch(*rec, *p),
{
    HousePrice {
        id: rec.id,
        med_inc: if p.med_inc.is_some() { p.med_inc } else { rec.med_inc },
        house_age: if p.house_age.is_some() { p.house_age } else { rec.house_age },
        ave_rooms: if p.ave_rooms.is_some() { p.ave_rooms } else { rec.ave_rooms },
        ave_bedrms: if p.ave_bedrms.is_some() { p.ave_bedrms } else { rec.ave_bedrms },
        population: if p.population.is_some() { p.population } else { rec.population },
        ave_occup: if p.ave_occup.is_some() { p.ave_occup } else { rec.ave_occup },
        latitude: if p.latitude.is_some() { p.latitude } else { rec.latitude },
        longitude: if p.longitude.is_some() { p.longitude } else { rec.longitude },
        med_house_val: if p.med_house_val.is_some() {
            p.med_house_val
        } else {
            rec.med_house_val
        },
    }
}

/// A patch changes exactly the fields it supplies: every supplied field takes
/// the supplied value, every other field and the identifier keep their prior
/// value. In particular a patch with a single field set changes that field
/// alone.
pub proof fn lemma_patch_changes_only_supplied_fields(rec: HousePrice, p: FieldPatch)
    ensures
        spec_apply_patch(rec, p).id == rec.id,
        forall|j: int|
            0 <= j < FIELD_COUNT && p.field(j) is Some ==> spec_apply_patch(
                rec,
                p,
            ).measurements()[j] == p.field(j),
        forall|j: int|
            0 <= j < FIELD_COUNT && p.field(j) is None ==> spec_apply_patch(
                rec,
                p,
            ).measurements()[j] == rec.measurements()[j],
{
    let r = spec_apply_patch(rec, p);
    assert forall|j: int| 0 <= j < FIELD_COUNT implies (p.field(j) is Some ==> r.measurements()[j]
        == p.field(j)) && (p.field(j) is None ==> r.measurements()[j] == rec.measurements()[j]) by {
        if j == 0 {
        } else if j == 1 {
        } else if j == 2 {
        } else if j == 3 {
        } else if j == 4 {
        } else if j == 5 {
        } else if j == 6 {
        } else if j == 7 {
        } else {
            assert(j == 8);
        }
    }
}

} // verus!

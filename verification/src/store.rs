//! An in-memory store that fixes the visible semantics of the CRUD
//! operations: insert assigns a fresh identifier, select returns rows in
//! insertion order, partial update rewrites exactly the supplied fields of
//! exactly the addressed row, and delete removes at most one row and reports
//! whether it existed. The unverified shell mirrors each operation onto the
//! SQL engine with the statement texts from `sql`; this type is the reference
//! for what each operation means, and is usable as a store in its own right.

use vstd::prelude::*;

use crate::record::{spec_apply_patch, FieldPatch, HousePrice};
use crate::sql::UpdateError;

verus! {

/// Why an insert was refused.
#[derive(Clone, Copy, Debug, PartialEq, Eq, Structural)]
pub enum StoreError {
    /// Every identifier has been handed out.
    IdSpaceExhausted,
}

/// The first row carrying `id`, searched front to back.
pub open spec fn seq_lookup(rows: Seq<HousePrice>, id: i32) -> Option<HousePrice>
    decreases rows.len(),
{
    if rows.len() == 0 {
        None
    } else if rows[0].id == Some(id) {
        Some(rows[0])
    } else {
        seq_lookup(rows.drop_first(), id)
    }
}

/// When no row carries `id`, the lookup comes up empty.
proof fn lemma_seq_lookup_none(rows: Seq<HousePrice>, id: i32)
    requires
        forall|i: int| 0 <= i < rows.len() ==> (#[trigger] rows[i].id) != Some(id),
    ensures
        seq_lookup(rows, id) is None,
    decreases rows.len(),
{
    if rows.len() > 0 {
        assert forall|i: int|
            0 <= i < rows.drop_first().len() implies (#[trigger] rows.drop_first()[i].id)
            != Some(id) by {
            assert(rows.drop_first()[i] == rows[i + 1]);
        }
        lemma_seq_lookup_none(rows.drop_first(), id);
    }
}

/// When row `j` is the first to carry `id`, the lookup returns it.
proof fn lemma_seq_lookup_found(rows: Seq<HousePrice>, id: i32, j: int)
    requires
        0 <= j < rows.len(),
        rows[j].id == Some(id),
        forall|k: int| 0 <= k < j ==> (#[trigger] rows[k].id) != Some(id),
    ensures
        seq_lookup(rows, id) == Some(rows[j]),
    decreases j,
{
    if j > 0 {
        assert(rows[0].id != Some(id));
        assert forall|k: int|
            0 <= k < j - 1 implies (#[trigger] rows.drop_first()[k].id) != Some(id) by {
            assert(rows.drop_first()[k] == rows[k + 1]);
        }
        assert(rows.drop_first()[j - 1] == rows[j]);
        lemma_seq_lookup_found(rows.drop_first(), id, j - 1);
    }
}

/// Patching exactly the rows that carry `id` moves the lookup of `id` across
/// the patch: a found row reads back patched, a missing one stays missing.
proof fn lemma_lookup_after_patch(a: Seq<HousePrice>, b: Seq<HousePrice>, id: i32, p: FieldPatch)
    requires
        a.len() == b.len(),
        forall|i: int|
            0 <= i < a.len() ==> #[trigger] b[i] == (if a[i].id == Some(id) {
                spec_apply_patch(a[i], p)
            } else {
                a[i]
            }),
    ensures
        seq_lookup(b, id) == match seq_lookup(a, id) {
            Some(rec) => Some(spec_apply_patch(rec, p)),
            None => None::<HousePrice>,
        },
    decreases a.len(),
{
    if a.len() > 0 {
        assert(b[0] == (if a[0].id == Some(id) {
            spec_apply_patch(a[0], p)
        } else {
            a[0]
        }));
        if a[0].id == Some(id) {
            assert(b[0].id == a[0].id);
        } else {
            assert forall|i: int|
                0 <= i < a.drop_first().len() implies #[trigger] b.drop_first()[i] == (if a
                .drop_first()[i].id == Some(id) {
                spec_apply_patch(a.drop_first()[i], p)
            } else {
                a.drop_first()[i]
            }) by {
                assert(a.drop_first()[i] == a[i + 1]);
                assert(b.drop_first()[i] == b[i + 1]);
            }
            lemma_lookup_after_patch(a.drop_first(), b.drop_first(), id, p);
        }
    }
}

/// The in-memory store: rows in insertion order, plus the identifier the
/// next insert will assign.
pub struct Store {
    rows: Vec<HousePrice>,
    next_id: i32,
}

impl View for Store {
    type V = Seq<HousePrice>;

    closed spec fn view(&self) -> Seq<HousePrice> {
        self.rows@
    }
}

impl Store {
    /// The identifier the next insert will assign.
    pub closed spec fn spec_next_id(self) -> int {
        self.next_id as int
    }

    /// Every row carries an identifier, identifiers are at least 1, below
    /// the next one to assign, and strictly increasing in row order. Every
    /// operation of the store preserves this.
    pub closed spec fn wf(self) -> bool {
        &&& 1 <= self.next_id
        &&& forall|i: int|
            0 <= i < self.rows@.len() ==> (#[trigger] self.rows@[i].id) is Some
                && 1 <= self.rows@[i].id->0 < self.next_id
        &&& forall|i: int, k: int|
            0 <= i < k < self.rows@.len() ==> self.rows@[i].id->0 < self.rows@[k].id->0
    }

    /// True when some row carries `id`.
    pub open spec fn contains_id(self, id: i32) -> bool {
        exists|i: int| 0 <= i < self@.len() && (#[trigger] self@[i].id) == Some(id)
    }

    /// The first row carrying `id`, if any. Identifiers are unique in a
    /// well-formed store, so this is the row carrying `id`.
    pub open spec fn lookup(self, id: i32) -> Option<HousePrice> {
        seq_lookup(self@, id)
    }

    /// An empty store; the first insert will assign identifier 1.
    pub fn new() -> (r: Store)
        ensures
            r.wf(),
            r@ == Seq::<HousePrice>::empty(),
            r.spec_next_id() == 1,
    {
        Store { rows: Vec::new(), next_id: 1 }
    }

    /// How many rows the store holds.
    pub fn len(&self) -> (r: usize)
        ensures
            r == self@.len(),
    {
        self.rows.len()
    }

    /// Identifiers are unique across all rows of a well-formed store.
    pub proof fn lemma_ids_unique(self)
        requires
            self.wf(),
        ensures
            forall|i: int, k: int|
                0 <= i < self@.len() && 0 <= k < self@.len() && i != k ==> (#[trigger] self@[i].id)
                    != (#[trigger] self@[k].id),
    {
        assert forall|i: int, k: int|
            0 <= i < self@.len() && 0 <= k < self@.len() && i != k implies (#[trigger] self@[i].id)
            != (#[trigger] self@[k].id) by {
            if i < k {
                assert(self@[i].id->0 < self@[k].id->0);
            } else {
                assert(self@[k].id->0 < self@[i].id->0);
            }
        }
    }

    /// Append one record under a fresh store-assigned identifier. The
    /// record's own identifier, if any, is ignored. On success the new
    /// identifier was carried by no prior row, and selecting by it yields a
    /// record equal to the input in every measurement field.
    pub fn insert(&mut self, rec: &HousePrice) -> (r: Result<i32, StoreError>)
        requires
            old(self).wf(),
        ensures
            final(self).wf(),
            r is Err <==> old(self).spec_next_id() == i32::MAX as int,
            r matches Err(e) ==> e == StoreError::IdSpaceExhausted && *final(self) == *old(self),
            r matches Ok(id) ==> {
                &&& !old(self).contains_id(id)
                &&& id == old(self).spec_next_id()
                &&& final(self).spec_next_id() == old(self).spec_next_id() + 1
                &&& final(self)@ == old(self)@.push(rec.with_id(id))
                &&& final(self).lookup(id) == Some(rec.with_id(id))
                &&& rec.with_id(id).measurements() == rec.measurements()
            },
    {
        if self.next_id == i32::MAX {
            return Err(StoreError::IdSpaceExhausted);
        }
        let id = self.next_id;
        let stamped = HousePrice { id: Some(id), ..*rec };
        self.rows.push(stamped);
        self.next_id = self.next_id + 1;
        proof {
            let rows = self.rows@;
            let n = rows.len() - 1;
            assert forall|k: int| 0 <= k < n implies (#[trigger] rows[k].id) != Some(id) by {
                assert(rows[k] == old(self)@[k]);
            }
            lemma_seq_lookup_found(rows, id, n);
            assert(rec.with_id(id).measurements() =~= rec.measurements());
            assert(self.rows@ =~= old(self)@.push(rec.with_id(id)));
        }
        Ok(id)
    }

    /// Every row, in insertion order.
    pub fn select_all(&self) -> (r: Vec<HousePrice>)
        ensures
            r@ == self@,
    {
        let mut r: Vec<HousePrice> = Vec::new();
        let mut i: usize = 0;
        while i < self.rows.len()
            invariant
                i <= self.rows.len(),
                r@ == self.rows@.subrange(0, i as int),
            decreases self.rows.len() - i,
        {
            r.push(self.rows[i]);
            proof {
                assert(r@ =~= self.rows@.subrange(0, i + 1 as int));
            }
            i += 1;
        }
        proof {
            assert(r@ =~= self@);
        }
        r
    }

    /// The record carrying `id`, or `None` when no row does; `None` is the
    /// not-found outcome, distinct from any failure.
    pub fn select_by_id(&self, id: i32) -> (r: Option<HousePrice>)
        requires
            self.wf(),
        ensures
            r == self.lookup(id),
            r is Some <==> self.contains_id(id),
            r matches Some(rec) ==> rec.id == Some(id),
    {
        let mut i: usize = 0;
        while i < self.rows.len()
            invariant
                i <= self.rows.len(),
                forall|k: int| 0 <= k < i ==> (#[trigger] self.rows@[k].id) != Some(id),
            decreases self.rows.len() - i,
        {
            if let Some(v) = self.rows[i].id {
                if v == id {
                    proof {
                        lemma_seq_lookup_found(self@, id, i as int);
                    }
                    return Some(self.rows[i]);
                }
            }
            i += 1;
        }
        proof {
            lemma_seq_lookup_none(self@, id);
        }
        None
    }

    /// Overwrite exactly the supplied fields of the row carrying `id`,
    /// leaving its other fields and every other row unchanged. A patch that
    /// supplies no field is rejected before anything is looked at. On
    /// success the result tells whether a row carrying `id` existed.
    pub fn update(&mut self, id: i32, p: &FieldPatch) -> (r: Result<bool, UpdateError>)
        requires
            old(self).wf(),
        ensures
            final(self).wf(),
            r is Err <==> p.spec_is_empty(),
            r matches Err(e) ==> e == UpdateError::NoFieldsToUpdate && *final(self) == *old(self),
            r matches Ok(found) ==> found == old(self).contains_id(id),
            r is Ok ==> {
                &&& final(self)@.len() == old(self)@.len()
                &&& forall|i: int|
                    0 <= i < old(self)@.len() ==> final(self)@[i] == (if old(self)@[i].id == Some(
                        id,
                    ) {
                        spec_apply_patch(old(self)@[i], *p)
                    } else {
                        old(self)@[i]
                    })
                &&& final(self).lookup(id) == match old(self).lookup(id) {
                    Some(rec) => Some(spec_apply_patch(rec, *p)),
                    None => None::<HousePrice>,
                }
            },
    {
        if p.is_empty() {
            return Err(UpdateError::NoFieldsToUpdate);
        }
        let mut i: usize = 0;
        while i < self.rows.len()
            invariant
                i <= self.rows.len(),
                *self == *old(self),
                old(self).wf(),
                !p.spec_is_empty(),
                forall|k: int| 0 <= k < i ==> (#[trigger] self.rows@[k].id) != Some(id),
            decreases self.rows.len() - i,
        {
            if let Some(v) = self.rows[i].id {
                if v == id {
                    let updated = crate::record::apply_patch(&self.rows[i], p);
                    self.rows.set(i, updated);
                    proof {
                        old(self).lemma_ids_unique();
                        assert forall|k: int|
                            0 <= k < old(self)@.len() implies self.rows@[k] == (if old(
                            self,
                        )@[k].id == Some(id) {
                            spec_apply_patch(old(self)@[k], *p)
                        } else {
                            old(self)@[k]
                        }) by {
                            if k != i {
                                assert(old(self)@[k].id != old(self)@[i as int].id);
                            }
                        }
                        lemma_lookup_after_patch(old(self)@, self.rows@, id, *p);
                    }
                    return Ok(true);
                }
            }
            i += 1;
        }
        proof {
            lemma_seq_lookup_none(self.rows@, id);
        }
        Ok(false)
    }

    /// Remove the row carrying `id`, if any. The result tells whether one
    /// existed: `false` is the normal not-found outcome, not an error. After
    /// the call no row carries `id`, and selecting by it reports not-found.
    pub fn delete(&mut self, id: i32) -> (r: bool)
        requires
            old(self).wf(),
        ensures
            final(self).wf(),
            r == old(self).contains_id(id),
            !r ==> *final(self) == *old(self),
            r ==> exists|i: int|
                0 <= i < old(self)@.len() && (#[trigger] old(self)@[i].id) == Some(id)
                    && final(self)@ == old(self)@.remove(i),
            !final(self).contains_id(id),
            final(self).lookup(id) is None,
    {
        let mut i: usize = 0;
        while i < self.rows.len()
            invariant
                i <= self.rows.len(),
                *self == *old(self),
                old(self).wf(),
                forall|k: int| 0 <= k < i ==> (#[trigger] self.rows@[k].id) != Some(id),
            decreases self.rows.len() - i,
        {
            if let Some(v) = self.rows[i].id {
                if v == id {
                    self.rows.remove(i);
                    proof {
                        old(self).lemma_ids_unique();
                        assert(self.rows@ == old(self)@.remove(i as int));
                        assert forall|k: int|
                            0 <= k < self.rows@.len() implies (#[trigger] self.rows@[k].id)
                            != Some(id) by {
                            if k < i {
                                assert(self.rows@[k] == old(self)@[k]);
                                assert(old(self)@[k].id != Some(id));
                            } else {
                                assert(self.rows@[k] == old(self)@[k + 1]);
                                assert(old(self)@[k + 1].id != old(self)@[i as int].id);
                            }
                        }
                        lemma_seq_lookup_none(self.rows@, id);
                    }
                    return true;
                }
            }
            i += 1;
        }
        proof {
            lemma_seq_lookup_none(self.rows@, id);
        }
        false
    }
}

} // verus!

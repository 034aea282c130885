//! The SQL statement texts the library owns, including the dynamically
//! assembled partial UPDATE.
//!
//! The update builder accumulates one `<column> = ?` assignment per supplied
//! field, in the fixed column order, and returns the finished statement
//! together with the positional parameters in the same order. A patch that
//! supplies no field is rejected here, before any statement exists, so an
//! empty SET clause can never reach the store.

use vstd::prelude::*;
use vstd::string::StringExecFns;

use crate::record::{column_name, field_name, FieldPatch, HousePrice, FIELD_COUNT};

verus! {

/// Why an update request was rejected before reaching the store.
#[derive(Clone, Copy, Debug, PartialEq, Eq, Structural)]
pub enum UpdateError {
    /// The patch supplied no field, so there is nothing to update and no
    /// syntactically valid statement to build.
    NoFieldsToUpdate,
}

/// True when some field among the first `j` is supplied by the patch.
pub open spec fn has_field_below(p: FieldPatch, j: int) -> bool {
    exists|i: int| 0 <= i < j && p.field(i) is Some
}

/// The SET clause assembled from the first `j` fields of the patch: one
/// `<column> = ?` assignment per supplied field, in column order, separated
/// by `, `.
pub open spec fn set_clause_upto(p: FieldPatch, j: int) -> Seq<char>
    decreases j,
{
    if j <= 0 {
        Seq::empty()
    } else if p.field(j - 1) is Some {
        if has_field_below(p, j - 1) {
            set_clause_upto(p, j - 1) + ", "@ + field_name(j - 1) + " = ?"@
        } else {
            field_name(j - 1) + " = ?"@
        }
    } else {
        set_clause_upto(p, j - 1)
    }
}

/// The positional parameters staged by the first `j` fields of the patch:
/// the supplied values, in column order.
pub open spec fn params_upto(p: FieldPatch, j: int) -> Seq<u32>
    decreases j,
{
    if j <= 0 {
        Seq::empty()
    } else if p.field(j - 1) is Some {
        params_upto(p, j - 1).push(p.field(j - 1)->0)
    } else {
        params_upto(p, j - 1)
    }
}

/// A prefix of the patch that supplies no field contributes nothing: its
/// clause and its parameter list are empty.
proof fn lemma_empty_prefix(p: FieldPatch, j: int)
    requires
        !has_field_below(p, j),
    ensures
        set_clause_upto(p, j) == Seq::<char>::empty(),
        params_upto(p, j) == Seq::<u32>::empty(),
    decreases j,
{
    if j > 0 {
        assert(p.field(j - 1) is None);
        assert(!has_field_below(p, j - 1));
        lemma_empty_prefix(p, j - 1);
    }
}

/// The finished UPDATE statement for a patch that supplies at least one
/// field. The row identifier is bound as one further positional parameter,
/// after all staged values.
pub open spec fn spec_update_statement(p: FieldPatch) -> Seq<char> {
    "UPDATE tbl_house_prices SET "@ + set_clause_upto(p, FIELD_COUNT as int) + " WHERE id = ?"@
}

/// The positional parameters of the finished UPDATE statement, without the
/// trailing row identifier.
pub open spec fn spec_update_params(p: FieldPatch) -> Seq<u32> {
    params_upto(p, FIELD_COUNT as int)
}

/// Build the partial UPDATE statement for `p`: the statement text and the
/// staged parameters in column order. A patch that supplies no field is
/// rejected, so no statement with an empty SET clause is ever produced.
pub fn build_update(p: &FieldPatch) -> (r: Result<(String, Vec<u32>), UpdateError>)
    ensures
        r is Err <==> p.spec_is_empty(),
        r matches Err(e) ==> e == UpdateError::NoFieldsToUpdate,
        r matches Ok(t) ==> t.0@ == spec_update_statement(*p) && t.1@ == spec_update_params(*p),
{
    if p.is_empty() {
        return Err(UpdateError::NoFieldsToUpdate);
    }
    let mut clause = String::new();
    let mut params: Vec<u32> = Vec::new();
    let mut any = false;
    let mut j: usize = 0;
    while j < FIELD_COUNT
        invariant
            j <= FIELD_COUNT,
            clause@ == set_clause_upto(*p, j as int),
            params@ == params_upto(*p, j as int),
            any == has_field_below(*p, j as int),
        decreases FIELD_COUNT - j,
    {
        match p.field_at(j) {
            Some(v) => {
                if any {
                    clause.append(", ");
                }
                clause.append(column_name(j));
                clause.append(" = ?");
                params.push(v);
                any = true;
                proof {
                    assert(has_field_below(*p, j + 1 as int)) by {
                        assert(p.field(j as int) is Some);
                    }
                    if !has_field_below(*p, j as int) {
                        lemma_empty_prefix(*p, j as int);
                    }
                    assert(clause@ =~= set_clause_upto(*p, j + 1 as int));
                    assert(params@ =~= params_upto(*p, j + 1 as int));
                }
            },
            None => {
                proof {
                    assert(has_field_below(*p, j + 1 as int) == has_field_below(*p, j as int))
                        by {
                        if has_field_below(*p, j + 1 as int) {
                            let i = choose|i: int|
                                0 <= i < j + 1 && #[trigger] p.field(i) is Some;
                            assert(i < j);
                        }
                    }
                    assert(clause@ =~= set_clause_upto(*p, j + 1 as int));
                    assert(params@ =~= params_upto(*p, j + 1 as int));
                }
            },
        }
        j += 1;
    }
    let mut stmt = String::new();
    stmt.append("UPDATE tbl_house_prices SET ");
    stmt.append(clause.as_str());
    stmt.append(" WHERE id = ?");
    proof {
        assert(stmt@ =~= spec_update_statement(*p));
    }
    Ok((stmt, params))
}

/// The statement that creates the table when it is absent; safe to run
/// repeatedly.
pub open spec fn spec_create_table_statement() -> Seq<char> {
    "CREATE TABLE IF NOT EXISTS tbl_house_prices (
            id INTEGER PRIMARY KEY AUTOINCREMENT,
            MedInc REAL,
            HouseAge REAL,
            AveRooms REAL,
            AveBedrms REAL,
            Population REAL,
            AveOccup REAL,
            Latitude REAL,
            Longitude REAL,
            MedHouseVal REAL
        )"@
}

/// The statement that creates the table when it is absent.
pub fn create_table_statement() -> (r: String)
    ensures
        r@ == spec_create_table_statement(),
{
    let r = String::from_str(
        "CREATE TABLE IF NOT EXISTS tbl_house_prices (
            id INTEGER PRIMARY KEY AUTOINCREMENT,
            MedInc REAL,
            HouseAge REAL,
            AveRooms REAL,
            AveBedrms REAL,
            Population REAL,
            AveOccup REAL,
            Latitude REAL,
            Longitude REAL,
            MedHouseVal REAL
        )",
    );
    proof {
        assert(r@ =~= spec_create_table_statement());
    }
    r
}

/// The statement that inserts one record, binding the nine measurement
/// columns positionally; the store assigns the identifier.
pub open spec fn spec_insert_statement() -> Seq<char> {
    "INSERT INTO tbl_house_prices (
                MedInc, HouseAge, AveRooms, AveBedrms, Population, AveOccup, Latitude, Longitude, MedHouseVal
            ) VALUES (?, ?, ?, ?, ?, ?, ?, ?, ?)"@
}

/// The statement that inserts one record.
pub fn insert_statement() -> (r: String)
    ensures
        r@ == spec_insert_statement(),
{
    let r = String::from_str(
        "INSERT INTO tbl_house_prices (
                MedInc, HouseAge, AveRooms, AveBedrms, Population, AveOccup, Latitude, Longitude, MedHouseVal
            ) VALUES (?, ?, ?, ?, ?, ?, ?, ?, ?)",
    );
    proof {
        assert(r@ =~= spec_insert_statement());
    }
    r
}

/// The positional parameters of the INSERT statement for one record: its
/// nine measurement fields in column order. The record's own identifier, if
/// any, is ignored.
pub fn insert_params(rec: &HousePrice) -> (r: Vec<Option<u32>>)
    ensures
        r@ == rec.measurements(),
{
    let mut r: Vec<Option<u32>> = Vec::new();
    r.push(rec.med_inc);
    r.push(rec.house_age);
    r.push(rec.ave_rooms);
    r.push(rec.ave_bedrms);
    r.push(rec.population);
    r.push(rec.ave_occup);
    r.push(rec.latitude);
    r.push(rec.longitude);
    r.push(rec.med_house_val);
    proof {
        assert(r@ =~= rec.measurements());
    }
    r
}

/// The statement that reads every row in table declaration order.
pub open spec fn spec_select_all_statement() -> Seq<char> {
    "SELECT * FROM tbl_house_prices"@
}

/// The statement that reads every row.
pub fn select_all_statement() -> (r: String)
    ensures
        r@ == spec_select_all_statement(),
{
    let r = String::from_str("SELECT * FROM tbl_house_prices");
    proof {
        assert(r@ =~= spec_select_all_statement());
    }
    r
}

/// The statement that reads the one row whose identifier is bound as its
/// positional parameter.
pub open spec fn spec_select_by_id_statement() -> Seq<char> {
    "SELECT * FROM tbl_house_prices WHERE id = ?"@
}

/// The statement that reads one row by identifier.
pub fn select_by_id_statement() -> (r: String)
    ensures
        r@ == spec_select_by_id_statement(),
{
    let r = String::from_str("SELECT * FROM tbl_house_prices WHERE id = ?");
    proof {
        assert(r@ =~= spec_select_by_id_statement());
    }
    r
}

/// The statement that deletes the one row whose identifier is bound as its
/// positional parameter.
pub open spec fn spec_delete_statement() -> Seq<char> {
    "DELETE FROM tbl_house_prices WHERE id = ?"@
}

/// The statement that deletes one row by identifier.
pub fn delete_statement() -> (r: String)
    ensures
        r@ == spec_delete_statement(),
{
    let r = String::from_str("DELETE FROM tbl_house_prices WHERE id = ?");
    proof {
        assert(r@ =~= spec_delete_statement());
    }
    r
}

} // verus!

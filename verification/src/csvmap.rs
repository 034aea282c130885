//! The mapping from a CSV table to typed records.
//!
//! The csv crate splits raw bytes into a header record and data records of
//! cell texts; that call is trusted, and everything after it is verified: the
//! header is mapped to the nine measurement columns by name (order in the
//! file does not matter), and each data row is decoded strictly, the whole
//! batch rejected at the first offending row with its position. The caller
//! turns each cell text into a measurement code before decoding, handing
//! `None` for a cell that did not parse.

use vstd::prelude::*;
use vstd::string::StringExecFns;

use crate::record::{column_name, field_name, HousePrice, FIELD_COUNT};

verus! {

/// The error type of the csv crate, opaque to the library.
#[verifier::external_type_specification]
#[verifier::external_body]
pub struct ExCsvError(csv::Error);

/// The header record and data records that the csv crate reads out of the
/// given bytes, or nothing when it refuses them; a function of the bytes
/// alone.
pub uninterp spec fn csv_table_of(data: Seq<u8>) -> Option<(Seq<Seq<char>>, Seq<Seq<Seq<char>>>)>;

/// Relies on csv::Reader::from_reader, headers and records: the bytes are
/// split into one header record and the data records after it, each a list
/// of cell texts; reading from an in-memory slice depends on the bytes
/// alone.
#[verifier::external_body]
fn split_csv(data: &Vec<u8>) -> (r: Result<(Vec<String>, Vec<Vec<String>>), csv::Error>)
    ensures
        match r {
            Ok(t) => csv_table_of(data@) == Some((t.0.deep_view(), t.1.deep_view())),
            Err(_) => csv_table_of(data@) is None,
        },
{
    let mut rdr = csv::Reader::from_reader(data.as_slice());
    let header: Vec<String> = rdr.headers()?.iter().map(|f| f.to_string()).collect();
    let mut rows: Vec<Vec<String>> = Vec::new();
    for rec in rdr.records() {
        rows.push(rec?.iter().map(|f| f.to_string()).collect());
    }
    Ok((header, rows))
}

/// Why CSV text was rejected before any row was decoded.
#[derive(Clone, Copy, Debug, PartialEq, Eq, Structural)]
pub enum CsvError {
    /// The bytes are not a CSV table the reader accepts.
    Unreadable,
    /// The header carries no column named after measurement field `field`.
    MissingColumn { field: usize },
}

/// Split CSV bytes into the header record and the data records of cell
/// texts, exactly as the csv crate reads them.
pub fn parse_table(data: &Vec<u8>) -> (r: Result<(Vec<String>, Vec<Vec<String>>), CsvError>)
    ensures
        r matches Ok(t) ==> csv_table_of(data@) == Some((t.0.deep_view(), t.1.deep_view())),
        r is Err <==> csv_table_of(data@) is None,
        r matches Err(e) ==> e == CsvError::Unreadable,
{
    match split_csv(data) {
        Ok(t) => Ok(t),
        Err(_) => Err(CsvError::Unreadable),
    }
}

/// Where each of the nine measurement fields sits in a header: field `j` is
/// read from column `idx[j]`.
#[derive(Clone, Debug, PartialEq, Eq)]
pub struct ColumnMap {
    pub idx: Vec<usize>,
}

impl ColumnMap {
    /// The map points each field at the first header column carrying the
    /// field's name.
    pub open spec fn wf(self, header: Seq<Seq<char>>) -> bool {
        &&& self.idx@.len() == FIELD_COUNT
        &&& forall|j: int|
            0 <= j < FIELD_COUNT ==> (#[trigger] self.idx@[j]) < header.len()
                && header[self.idx@[j] as int] == field_name(j)
        &&& forall|j: int, k: int|
            0 <= j < FIELD_COUNT && 0 <= k < self.idx@[j] ==> #[trigger] header[k] != #[trigger]
            field_name(j)
    }
}

/// True when the header carries a column named after field `j`.
pub open spec fn header_has_field(header: Seq<Seq<char>>, j: int) -> bool {
    exists|k: int| 0 <= k < header.len() && #[trigger] header[k] == field_name(j)
}

/// Map a header to the nine measurement columns by name. Column order in the
/// header does not matter; a field found twice is read from its first
/// column. The header is rejected, naming the first field in column order
/// that it lacks.
pub fn map_header(header: &Vec<String>) -> (r: Result<ColumnMap, CsvError>)
    ensures
        r is Ok <==> forall|j: int| 0 <= j < FIELD_COUNT ==> header_has_field(
            header.deep_view(),
            j,
        ),
        r matches Ok(cm) ==> cm.wf(header.deep_view()),
        r matches Err(e) ==> e matches CsvError::MissingColumn { field } && field < FIELD_COUNT
            && !header_has_field(header.deep_view(), field as int) && forall|j: int|
            0 <= j < field ==> header_has_field(header.deep_view(), j),
{
    let ghost hv = header.deep_view();
    let mut idx: Vec<usize> = Vec::new();
    let mut j: usize = 0;
    while j < FIELD_COUNT
        invariant
            j <= FIELD_COUNT,
            hv == header.deep_view(),
            idx@.len() == j,
            forall|m: int|
                0 <= m < j ==> (#[trigger] idx@[m]) < hv.len() && hv[idx@[m] as int]
                    == field_name(m),
            forall|m: int, k: int|
                0 <= m < j && 0 <= k < idx@[m] ==> #[trigger] hv[k] != #[trigger] field_name(m),
            forall|m: int| 0 <= m < j ==> header_has_field(hv, m),
        decreases FIELD_COUNT - j,
    {
        let name = String::from_str(column_name(j));
        let mut k: usize = 0;
        let mut found = false;
        while k < header.len()
            invariant_except_break
                k <= header@.len(),
                hv == header.deep_view(),
                name@ == field_name(j as int),
                !found,
                forall|m: int| 0 <= m < k ==> #[trigger] hv[m] != field_name(j as int),
            ensures
                k <= header@.len(),
                hv == header.deep_view(),
                name@ == field_name(j as int),
                forall|m: int| 0 <= m < k ==> #[trigger] hv[m] != field_name(j as int),
                found ==> k < hv.len() && hv[k as int] == field_name(j as int),
                !found ==> k == hv.len(),
            decreases header@.len() - k,
        {
            if header[k] == name {
                found = true;
                proof {
                    assert(hv[k as int] == header@[k as int]@);
                }
                break ;
            }
            proof {
                assert(hv[k as int] == header@[k as int]@);
            }
            k += 1;
        }
        if !found {
            proof {
                assert(!header_has_field(hv, j as int));
            }
            return Err(CsvError::MissingColumn { field: j });
        }
        idx.push(k);
        proof {
            assert(header_has_field(hv, j as int));
        }
        j += 1;
    }
    Ok(ColumnMap { idx })
}

/// Why one data row was rejected.
#[derive(Clone, Copy, Debug, PartialEq, Eq, Structural)]
pub enum RowError {
    /// The row has no cell at the column field `field` is mapped to.
    TooShort { field: usize },
    /// The cell for field `field` carries no decodable value.
    BadCell { field: usize },
}

/// The first complaint against a row, scanning the fields in column order
/// from field `j` on: a missing cell, then an undecodable one.
pub open spec fn row_check(cm: ColumnMap, cells: Seq<Option<u32>>, j: int) -> Result<(), RowError>
    decreases FIELD_COUNT - j,
{
    if j < 0 || j >= FIELD_COUNT {
        Ok(())
    } else if cells.len() <= cm.idx@[j] {
        Err(RowError::TooShort { field: j as usize })
    } else if cells[cm.idx@[j] as int] is None {
        Err(RowError::BadCell { field: j as usize })
    } else {
        row_check(cm, cells, j + 1)
    }
}

/// The record one row decodes to, once `row_check` accepts the row: each
/// measurement taken from the cell its column is mapped to, the identifier
/// left absent.
pub open spec fn spec_decoded(cm: ColumnMap, cells: Seq<Option<u32>>) -> HousePrice {
    HousePrice {
        id: None,
        med_inc: cells[cm.idx@[0] as int],
        house_age: cells[cm.idx@[1] as int],
        ave_rooms: cells[cm.idx@[2] as int],
        ave_bedrms: cells[cm.idx@[3] as int],
        population: cells[cm.idx@[4] as int],
        ave_occup: cells[cm.idx@[5] as int],
        latitude: cells[cm.idx@[6] as int],
        longitude: cells[cm.idx@[7] as int],
        med_house_val: cells[cm.idx@[8] as int],
    }
}

/// What one row decodes to: the typed record, or the first complaint.
pub open spec fn spec_decode_row(cm: ColumnMap, cells: Seq<Option<u32>>) -> Result<
    HousePrice,
    RowError,
> {
    match row_check(cm, cells, 0) {
        Ok(_) => Ok(spec_decoded(cm, cells)),
        Err(e) => Err(e),
    }
}

/// Decode one data row whose cells were already turned into measurement
/// codes, `None` standing for a cell that did not parse. Strict: the first
/// missing or undecodable cell, in column order of the fields, rejects the
/// row.
pub fn decode_row(cm: &ColumnMap, cells: &Vec<Option<u32>>) -> (r: Result<HousePrice, RowError>)
    requires
        cm.idx@.len() == FIELD_COUNT,
    ensures
        r == spec_decode_row(*cm, cells@),
{
    let mut j: usize = 0;
    while j < FIELD_COUNT
        invariant
            j <= FIELD_COUNT,
            cm.idx@.len() == FIELD_COUNT,
            row_check(*cm, cells@, 0) == row_check(*cm, cells@, j as int),
            forall|m: int|
                0 <= m < j ==> (#[trigger] cm.idx@[m]) < cells@.len() && cells@[cm.idx@[m] as int]
                    is Some,
        decreases FIELD_COUNT - j,
    {
        if cells.len() <= cm.idx[j] {
            return Err(RowError::TooShort { field: j });
        }
        if cells[cm.idx[j]].is_none() {
            return Err(RowError::BadCell { field: j });
        }
        j += 1;
    }
    Ok(
        HousePrice {
            id: None,
            med_inc: cells[cm.idx[0]],
            house_age: cells[cm.idx[1]],
            ave_rooms: cells[cm.idx[2]],
            ave_bedrms: cells[cm.idx[3]],
            population: cells[cm.idx[4]],
            ave_occup: cells[cm.idx[5]],
            latitude: cells[cm.idx[6]],
            longitude: cells[cm.idx[7]],
            med_house_val: cells[cm.idx[8]],
        },
    )
}

/// Why a bulk load was rejected: the first offending row and its complaint.
#[derive(Clone, Copy, Debug, PartialEq, Eq, Structural)]
pub struct LoadError {
    pub row: usize,
    pub cause: RowError,
}

/// Decode a whole batch of data rows strictly: the first offending row
/// rejects the batch, reporting its position and its complaint; on success
/// every row decodes, in order.
pub fn decode_rows(cm: &ColumnMap, rows: &Vec<Vec<Option<u32>>>) -> (r: Result<
    Vec<HousePrice>,
    LoadError,
>)
    requires
        cm.idx@.len() == FIELD_COUNT,
    ensures
        r is Ok <==> forall|i: int|
            0 <= i < rows@.len() ==> (#[trigger] spec_decode_row(*cm, rows@[i]@)) is Ok,
        r matches Ok(v) ==> v@.len() == rows@.len() && forall|i: int|
            0 <= i < rows@.len() ==> #[trigger] v@[i] == spec_decode_row(*cm, rows@[i]@)->Ok_0,
        r matches Err(e) ==> e.row < rows@.len() && spec_decode_row(*cm, rows@[e.row as int]@)
            == Err::<HousePrice, RowError>(e.cause) && forall|i: int|
            0 <= i < e.row ==> (#[trigger] spec_decode_row(*cm, rows@[i]@)) is Ok,
{
    let mut out: Vec<HousePrice> = Vec::new();
    let mut i: usize = 0;
    while i < rows.len()
        invariant
            i <= rows@.len(),
            cm.idx@.len() == FIELD_COUNT,
            out@.len() == i,
            forall|m: int|
                0 <= m < i ==> (#[trigger] spec_decode_row(*cm, rows@[m]@)) is Ok && out@[m]
                    == spec_decode_row(*cm, rows@[m]@)->Ok_0,
        decreases rows@.len() - i,
    {
        match decode_row(cm, &rows[i]) {
            Ok(rec) => {
                out.push(rec);
            },
            Err(cause) => {
                return Err(LoadError { row: i, cause });
            },
        }
        i += 1;
    }
    Ok(out)
}

} // verus!

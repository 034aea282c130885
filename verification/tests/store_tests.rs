use housedb::record::{FieldPatch, HousePrice};
use housedb::sql::UpdateError;
use housedb::store::Store;

fn code(x: f32) -> Option<u32> {
    Some(x.to_bits())
}

fn test_record() -> HousePrice {
    HousePrice {
        id: None,
        med_inc: code(3.5),
        house_age: code(20.0),
        ave_rooms: code(5.0),
        ave_bedrms: code(1.0),
        population: code(500.0),
        ave_occup: code(3.2),
        latitude: code(37.77),
        longitude: code(-122.42),
        med_house_val: code(450000.0),
    }
}

#[test]
fn test_insert_and_select_record() {
    let mut store = Store::new();
    let id = store.insert(&test_record()).unwrap();
    let records = store.select_all();
    assert_eq!(records.len(), 1);
    assert_eq!(records[0].med_inc, test_record().med_inc);
    assert_eq!(records[0].id, Some(id));
}

#[test]
fn test_select_record_by_id() {
    let mut store = Store::new();
    store.insert(&test_record()).unwrap();
    let record = store.select_by_id(1).unwrap();
    assert_eq!(record.med_inc, test_record().med_inc);
}

#[test]
fn test_update_house_price() {
    let mut store = Store::new();
    store.insert(&test_record()).unwrap();

    let patch = FieldPatch { med_inc: code(4.5), ..FieldPatch::empty() };
    let success = store.update(1, &patch).unwrap();
    assert!(success);

    let record = store.select_by_id(1).unwrap();
    assert_eq!(record.med_inc, code(4.5));
}

#[test]
fn test_delete_record() {
    let mut store = Store::new();
    store.insert(&test_record()).unwrap();

    let success = store.delete(1);
    assert!(success);

    let records = store.select_all();
    assert!(records.is_empty());
}

#[test]
fn insert_then_select_by_returned_id_yields_equal_record() {
    let mut store = Store::new();
    let input = test_record();
    let id = store.insert(&input).unwrap();
    let record = store.select_by_id(id).unwrap();
    assert_eq!(record.id, Some(id));
    assert_eq!(record.med_inc, input.med_inc);
    assert_eq!(record.house_age, input.house_age);
    assert_eq!(record.ave_rooms, input.ave_rooms);
    assert_eq!(record.ave_bedrms, input.ave_bedrms);
    assert_eq!(record.population, input.population);
    assert_eq!(record.ave_occup, input.ave_occup);
    assert_eq!(record.latitude, input.latitude);
    assert_eq!(record.longitude, input.longitude);
    assert_eq!(record.med_house_val, input.med_house_val);
}

#[test]
fn single_field_update_changes_exactly_that_field() {
    let mut store = Store::new();
    let input = test_record();
    let id = store.insert(&input).unwrap();

    let patch = FieldPatch { latitude: code(40.0), ..FieldPatch::empty() };
    assert_eq!(store.update(id, &patch), Ok(true));

    let record = store.select_by_id(id).unwrap();
    assert_eq!(record.latitude, code(40.0));
    assert_eq!(record.med_inc, input.med_inc);
    assert_eq!(record.house_age, input.house_age);
    assert_eq!(record.ave_rooms, input.ave_rooms);
    assert_eq!(record.ave_bedrms, input.ave_bedrms);
    assert_eq!(record.population, input.population);
    assert_eq!(record.ave_occup, input.ave_occup);
    assert_eq!(record.longitude, input.longitude);
    assert_eq!(record.med_house_val, input.med_house_val);
    assert_eq!(record.id, Some(id));
}

#[test]
fn zero_field_update_is_rejected_before_the_store() {
    let mut store = Store::new();
    let id = store.insert(&test_record()).unwrap();

    assert_eq!(store.update(id, &FieldPatch::empty()), Err(UpdateError::NoFieldsToUpdate));

    // Nothing changed: the record reads back as inserted.
    let record = store.select_by_id(id).unwrap();
    assert_eq!(record.med_inc, test_record().med_inc);
}

#[test]
fn update_missing_id_reports_not_found() {
    let mut store = Store::new();
    let patch = FieldPatch { med_inc: code(4.5), ..FieldPatch::empty() };
    assert_eq!(store.update(7, &patch), Ok(false));
}

#[test]
fn delete_semantics() {
    let mut store = Store::new();
    let id = store.insert(&test_record()).unwrap();

    // Deleting a nonexistent id is a normal `false`, not an error.
    assert!(!store.delete(id + 1));
    assert_eq!(store.len(), 1);

    // Deleting an existing id succeeds, and the id then reads as not-found.
    assert!(store.delete(id));
    assert_eq!(store.select_by_id(id), None);
    assert!(!store.delete(id));
}

#[test]
fn select_all_after_n_inserts_returns_n_records_with_unique_ids() {
    let mut store = Store::new();
    let n = 5;
    for _ in 0..n {
        store.insert(&test_record()).unwrap();
    }
    let records = store.select_all();
    assert_eq!(records.len(), n);
    let mut ids: Vec<i32> = records.iter().map(|r| r.id.unwrap()).collect();
    ids.sort();
    ids.dedup();
    assert_eq!(ids.len(), n);
}

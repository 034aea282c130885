use housedb::csvmap::{decode_row, decode_rows, map_header, parse_table, CsvError, RowError};

const CSV_DATA: &str = "MedInc,HouseAge,AveRooms,AveBedrms,Population,AveOccup,Latitude,Longitude,MedHouseVal\n\
        3.5,20.0,5.0,1.0,500,3.2,37.77,-122.42,450000.0";

fn parse_cells(rows: &[Vec<String>]) -> Vec<Vec<Option<u32>>> {
    rows.iter()
        .map(|row| row.iter().map(|cell| cell.parse::<f32>().ok().map(f32::to_bits)).collect())
        .collect()
}

#[test]
fn test_load_csv_to_struct() {
    let data: Vec<u8> = CSV_DATA.as_bytes().to_vec();
    let (header, rows) = parse_table(&data).unwrap();
    let cm = map_header(&header).unwrap();
    let records = decode_rows(&cm, &parse_cells(&rows)).unwrap();
    assert_eq!(records.len(), 1);
    assert_eq!(records[0].med_inc, Some(3.5f32.to_bits()));
}

#[test]
fn csv_round_trip_decodes_first_and_last_field() {
    let data: Vec<u8> = CSV_DATA.as_bytes().to_vec();
    let (header, rows) = parse_table(&data).unwrap();
    let cm = map_header(&header).unwrap();
    let records = decode_rows(&cm, &parse_cells(&rows)).unwrap();
    assert_eq!(records.len(), 1);
    let rec = records[0];
    assert_eq!(rec.id, None);
    assert_eq!(rec.med_inc, Some(3.5f32.to_bits()));
    assert_eq!(rec.house_age, Some(20.0f32.to_bits()));
    assert_eq!(rec.population, Some(500f32.to_bits()));
    assert_eq!(rec.longitude, Some((-122.42f32).to_bits()));
    assert_eq!(rec.med_house_val, Some(450000.0f32.to_bits()));
}

#[test]
fn parse_table_splits_header_and_cells() {
    let data: Vec<u8> = b"MedInc,HouseAge\n3.5,20.0\n4.5,30.0".to_vec();
    let (header, rows) = parse_table(&data).unwrap();
    assert_eq!(header, vec!["MedInc".to_string(), "HouseAge".to_string()]);
    assert_eq!(
        rows,
        vec![
            vec!["3.5".to_string(), "20.0".to_string()],
            vec!["4.5".to_string(), "30.0".to_string()],
        ]
    );
}

#[test]
fn parse_table_rejects_uneven_rows() {
    let data: Vec<u8> = b"MedInc,HouseAge\n3.5,20.0,9.9".to_vec();
    assert_eq!(parse_table(&data), Err(CsvError::Unreadable));
}

#[test]
fn header_mapping_is_order_independent() {
    // MedHouseVal and MedInc swap places; decoding still reads each field
    // from the column carrying its name.
    let data: Vec<u8> = b"MedHouseVal,HouseAge,AveRooms,AveBedrms,Population,AveOccup,Latitude,Longitude,MedInc\n\
        450000.0,20.0,5.0,1.0,500,3.2,37.77,-122.42,3.5"
        .to_vec();
    let (header, rows) = parse_table(&data).unwrap();
    let cm = map_header(&header).unwrap();
    let records = decode_rows(&cm, &parse_cells(&rows)).unwrap();
    assert_eq!(records[0].med_inc, Some(3.5f32.to_bits()));
    assert_eq!(records[0].med_house_val, Some(450000.0f32.to_bits()));
}

#[test]
fn missing_column_is_reported() {
    // No AveRooms column: field 2 in column order.
    let header: Vec<String> = ["MedInc", "HouseAge", "AveBedrms", "Population", "AveOccup",
        "Latitude", "Longitude", "MedHouseVal"]
        .iter()
        .map(|s| s.to_string())
        .collect();
    assert_eq!(map_header(&header), Err(CsvError::MissingColumn { field: 2 }));
}

#[test]
fn bad_cell_rejects_the_batch_with_its_position() {
    let data: Vec<u8> = b"MedInc,HouseAge,AveRooms,AveBedrms,Population,AveOccup,Latitude,Longitude,MedHouseVal\n\
        3.5,20.0,5.0,1.0,500,3.2,37.77,-122.42,450000.0\n\
        3.5,not-a-number,5.0,1.0,500,3.2,37.77,-122.42,450000.0"
        .to_vec();
    let (header, rows) = parse_table(&data).unwrap();
    let cm = map_header(&header).unwrap();
    let err = decode_rows(&cm, &parse_cells(&rows)).unwrap_err();
    assert_eq!(err.row, 1);
    assert_eq!(err.cause, RowError::BadCell { field: 1 });
}

#[test]
fn short_row_is_rejected() {
    let header: Vec<String> = ["MedInc", "HouseAge", "AveRooms", "AveBedrms", "Population",
        "AveOccup", "Latitude", "Longitude", "MedHouseVal"]
        .iter()
        .map(|s| s.to_string())
        .collect();
    let cm = map_header(&header).unwrap();
    let cells: Vec<Option<u32>> = vec![Some(1), Some(2), Some(3)];
    assert_eq!(decode_row(&cm, &cells), Err(RowError::TooShort { field: 3 }));
}

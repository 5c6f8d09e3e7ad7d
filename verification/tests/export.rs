use dejavu_similarity_api::export::{export_row, headers, AirTime};

fn at(year: i32, month: u32, day: u32, hour: u32, minute: u32) -> AirTime {
    AirTime { year, month, day, hour, minute }
}

#[test]
fn report_headers() {
    assert_eq!(headers(), vec!["Codigo", "Emissora", "Horario", "Propaganda", "Score", "Similaridade"]);
}

#[test]
fn full_row() {
    let row = export_row(
        42,
        Some("Radio Uno".to_string()),
        Some(at(2024, 3, 5, 14, 7)),
        Some("Café bom".to_string()),
        Some("91.50%".to_string()),
        "Alto".to_string(),
    );
    assert_eq!(row, vec!["42", "Radio Uno", "05/03/2024 14:07", "CAFÉ BOM", "91.50%", "Alto"]);
}

#[test]
fn missing_values_show_dash() {
    let row = export_row(-7, None, None, None, None, "-".to_string());
    assert_eq!(row, vec!["-7", "-", "-", "-", "-", "-"]);
}

#[test]
fn air_time_that_does_not_exist_shows_dash() {
    let feb29 = export_row(1, None, Some(at(2023, 2, 29, 10, 0)), None, None, "-".to_string());
    assert_eq!(feb29[2], "-");
    let leap = export_row(1, None, Some(at(2024, 2, 29, 23, 59)), None, None, "-".to_string());
    assert_eq!(leap[2], "29/02/2024 23:59");
    let late = export_row(1, None, Some(at(2024, 1, 1, 24, 0)), None, None, "-".to_string());
    assert_eq!(late[2], "-");
}

#[test]
fn air_time_years_and_calendar() {
    let cell = |t: AirTime| export_row(1, None, Some(t), None, None, "-".to_string())[2].clone();
    assert_eq!(cell(at(5, 7, 9, 0, 0)), "09/07/0005 00:00");
    assert_eq!(cell(at(-1, 1, 1, 0, 0)), "01/01/-0001 00:00");
    assert_eq!(cell(at(12345, 12, 31, 23, 59)), "31/12/+12345 23:59");
    assert_eq!(cell(at(-12345, 6, 15, 8, 30)), "15/06/-12345 08:30");
    assert_eq!(cell(at(262_143, 1, 1, 0, 0)), "-");
    assert_eq!(cell(at(2000, 2, 29, 0, 0)), "29/02/2000 00:00");
    assert_eq!(cell(at(1900, 2, 29, 0, 0)), "-");
    assert_eq!(cell(at(2024, 4, 31, 0, 0)), "-");
    assert_eq!(cell(at(2024, 13, 1, 0, 0)), "-");
    assert_eq!(cell(at(2024, 0, 1, 0, 0)), "-");
    assert_eq!(cell(at(2024, 1, 0, 0, 0)), "-");
    assert_eq!(cell(at(2024, 1, 1, 0, 60)), "-");
}

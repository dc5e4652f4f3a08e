use attendance_sheet::calendar::{Timestamp, MAX_SECONDS, MIN_SECONDS};
use attendance_sheet::row::Row;
use attendance_sheet::wire::{range_for, range_of_label, WireRow};

fn at(seconds: i64) -> Timestamp {
    Timestamp::from_unix_seconds(seconds).unwrap()
}

fn sample_row() -> Row<'static> {
    Row {
        serial_number: 12,
        name: "Asha Rao",
        roll_number: "21CS042",
        seat_number: 17,
        time_in: "09:05",
        time_out: "17:40",
    }
}

#[test]
fn timestamp_takes_the_years_one_to_9999() {
    assert!(Timestamp::from_unix_seconds(0).is_some());
    assert!(Timestamp::from_unix_seconds(MIN_SECONDS).is_some());
    assert!(Timestamp::from_unix_seconds(MAX_SECONDS).is_some());
    assert_eq!(at(1_685_946_600).unix_seconds(), 1_685_946_600);
}

#[test]
fn timestamp_refuses_what_lies_outside() {
    assert_eq!(Timestamp::from_unix_seconds(MIN_SECONDS - 1), None);
    assert_eq!(Timestamp::from_unix_seconds(MAX_SECONDS + 1), None);
    assert_eq!(Timestamp::from_unix_seconds(i64::MIN), None);
    assert_eq!(Timestamp::from_unix_seconds(i64::MAX), None);
}

#[test]
fn day_label_is_day_and_short_month() {
    // 2023-06-05 12:00 in India
    assert_eq!(at(1_685_946_600).day_label(), "5 Jun");
    // 2024-08-15 10:00 in India
    assert_eq!(at(1_723_696_200).day_label(), "15 Aug");
    // 2024-02-29 08:00 in India
    assert_eq!(at(1_709_173_800).day_label(), "29 Feb");
}

#[test]
fn day_label_turns_at_midnight_in_india() {
    // 2023-06-04T18:29:59Z is 23:59:59 on the 4th in India
    assert_eq!(at(1_685_903_399).day_label(), "4 Jun");
    // one second later the 5th has begun there, while UTC is still on the 4th
    assert_eq!(at(1_685_903_400).day_label(), "5 Jun");
    // 2023-12-31T18:30:00Z is the new year in India
    assert_eq!(at(1_704_047_399).day_label(), "31 Dec");
    assert_eq!(at(1_704_047_400).day_label(), "1 Jan");
}

#[test]
fn day_label_exists_at_both_ends() {
    assert_eq!(at(MIN_SECONDS).day_label(), "1 Jan");
    assert_eq!(at(MAX_SECONDS).day_label(), "1 Jan");
    assert_eq!(at(0).day_label(), "1 Jan");
}

#[test]
fn range_of_label_quotes_the_sheet_and_spans_six_rows() {
    assert_eq!(range_of_label("5 Jun"), "'5 Jun'!1:6");
    assert_eq!(range_of_label(""), "''!1:6");
}

#[test]
fn range_for_names_the_day() {
    assert_eq!(range_for(at(1_685_946_600)), "'5 Jun'!1:6");
    assert_eq!(range_for(at(1_723_696_200)), "'15 Aug'!1:6");
}

#[test]
fn format_gives_six_text_cells_in_column_order() {
    let wire = WireRow::format(sample_row(), at(1_685_946_600));
    assert_eq!(
        wire.values,
        vec![vec![
            "12".to_string(),
            "Asha Rao".to_string(),
            "21CS042".to_string(),
            "17".to_string(),
            "09:05".to_string(),
            "17:40".to_string(),
        ]]
    );
    assert_eq!(wire.major_dimension, "ROWS");
    assert_eq!(wire.range, "'5 Jun'!1:6");
}

#[test]
fn format_is_a_function_of_row_and_instant() {
    let first = WireRow::format(sample_row(), at(1_685_946_600));
    let second = WireRow::format(sample_row(), at(1_685_946_600));
    assert_eq!(first, second);
    let other_day = WireRow::format(sample_row(), at(1_723_696_200));
    assert_eq!(other_day.values, first.values);
    assert_ne!(other_day.range, first.range);
}

#[test]
fn for_range_addresses_the_given_range() {
    let wire = WireRow::for_range(sample_row(), "'Archive'!A:F");
    assert_eq!(wire.range, "'Archive'!A:F");
    assert_eq!(wire.major_dimension, "ROWS");
    assert_eq!(wire.values.len(), 1);
    assert_eq!(wire.values[0].len(), 6);
    assert_eq!(wire.values[0][0], "12");
    assert_eq!(wire.values[0][3], "17");
}

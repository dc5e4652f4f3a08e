use attendance_sheet::decimal::render;
use attendance_sheet::row::{Row, RowDraft};

fn sample_draft() -> RowDraft<'static> {
    RowDraft {
        name: "Asha Rao",
        roll_number: "21CS042",
        seat_number: 17,
        time_in: "09:05",
        time_out: "17:40",
    }
}

#[test]
fn render_writes_single_digits() {
    assert_eq!(render(0), "0");
    assert_eq!(render(7), "7");
    assert_eq!(render(9), "9");
}

#[test]
fn render_writes_every_digit_in_order() {
    assert_eq!(render(10), "10");
    assert_eq!(render(1234567890), "1234567890");
    assert_eq!(render(1000), "1000");
}

#[test]
fn render_writes_the_largest_number() {
    assert_eq!(render(u64::MAX), "18446744073709551615");
}

#[test]
fn render_agrees_with_the_standard_library() {
    let mut n: u64 = 1;
    for _ in 0..40 {
        assert_eq!(render(n), n.to_string());
        assert_eq!(render(n - 1), (n - 1).to_string());
        n = n * 3 + 1;
    }
}

#[test]
fn numbered_keeps_the_draft_and_adds_the_serial() {
    let row = sample_draft().numbered(4);
    assert_eq!(
        row,
        Row {
            serial_number: 4,
            name: "Asha Rao",
            roll_number: "21CS042",
            seat_number: 17,
            time_in: "09:05",
            time_out: "17:40",
        }
    );
    assert_eq!(row.draft(), sample_draft());
}

#[test]
fn pretty_print_labels_the_six_fields() {
    let row = sample_draft().numbered(4);
    let expected = "Appended data:\nSerial Number: 4\tName: Asha Rao\tRoll Number: 21CS042\t\n                              \t\tSeat Number: 17\tTime In: 09:05\t Time Out: 17:40\t";
    assert_eq!(row.pretty_print(), expected);
}

#[test]
fn pretty_print_matches_the_format_string() {
    let row = Row {
        serial_number: 120,
        name: "B",
        roll_number: "",
        seat_number: 0,
        time_in: "in",
        time_out: "out",
    };
    let expected = format!(
        "Appended data:\nSerial Number: {}\tName: {}\tRoll Number: {}\t\n{}\t\tSeat Number: {}\tTime In: {}\t Time Out: {}\t",
        120,
        "B",
        "",
        " ".repeat(30),
        0,
        "in",
        "out"
    );
    assert_eq!(row.pretty_print(), expected);
}

#[test]
fn pretty_print_keeps_text_that_is_not_ascii() {
    let row = Row {
        serial_number: 1,
        name: "Zoë Müller",
        roll_number: "र१",
        seat_number: 4294967295,
        time_in: "",
        time_out: "—",
    };
    let text = row.pretty_print();
    assert!(text.contains("Name: Zoë Müller\t"));
    assert!(text.contains("Roll Number: र१\t"));
    assert!(text.contains("Seat Number: 4294967295\t"));
    assert!(text.ends_with("Time Out: —\t"));
}

use trace_conformance::loader::{load_trace, parse_row, parse_trace, trace_from_rows, TraceError};
use trace_conformance::trace::TraceStep;

fn fields(texts: &[&str]) -> Vec<Vec<u8>> {
    texts.iter().map(|t| t.as_bytes().to_vec()).collect()
}

fn write_table(steps: &[TraceStep]) -> Vec<u8> {
    let mut text = String::from("pc,ap,fp\n");
    for step in steps {
        text.push_str(&format!("{},{},{}\n", step.pc, step.ap, step.fp));
    }
    text.into_bytes()
}

#[test]
fn row_of_three_numbers_is_a_step() {
    assert_eq!(parse_row(&fields(&["1", "6", "6"])), Some(TraceStep::new(1, 6, 6)));
}

#[test]
fn row_keeps_the_order_of_its_fields() {
    assert_eq!(parse_row(&fields(&["10", "20", "30"])), Some(TraceStep { pc: 10, ap: 20, fp: 30 }));
}

#[test]
fn row_with_a_missing_field_is_no_step() {
    assert_eq!(parse_row(&fields(&["1", "6"])), None);
    assert_eq!(parse_row(&fields(&["1"])), None);
    assert_eq!(parse_row(&fields(&[])), None);
}

#[test]
fn row_with_a_field_that_is_no_number_is_no_step() {
    assert_eq!(parse_row(&fields(&["x", "6", "6"])), None);
    assert_eq!(parse_row(&fields(&["1", "", "6"])), None);
    assert_eq!(parse_row(&fields(&["1", "6", "-6"])), None);
}

#[test]
fn fields_behind_the_third_are_not_read() {
    assert_eq!(parse_row(&fields(&["1", "6", "6", "note"])), Some(TraceStep::new(1, 6, 6)));
}

#[test]
fn rows_become_steps_in_their_order() {
    let rows = vec![Some(fields(&["1", "6", "6"])), Some(fields(&["3", "7", "6"]))];
    assert_eq!(
        trace_from_rows(&rows),
        Ok(vec![TraceStep::new(1, 6, 6), TraceStep::new(3, 7, 6)])
    );
}

#[test]
fn no_rows_give_an_empty_trace() {
    assert_eq!(trace_from_rows(&vec![]), Ok(vec![]));
}

#[test]
fn unread_row_fails_the_load() {
    let rows = vec![Some(fields(&["1", "6", "6"])), None, Some(fields(&["3", "7", "6"]))];
    assert_eq!(trace_from_rows(&rows), Err(TraceError::MalformedRow { row: 1 }));
}

#[test]
fn first_malformed_row_is_named() {
    let rows = vec![
        Some(fields(&["1", "6", "6"])),
        Some(fields(&["3", "7", "6"])),
        Some(fields(&["5", "eight", "6"])),
        None,
        Some(fields(&["x", "y", "z"])),
    ];
    assert_eq!(trace_from_rows(&rows), Err(TraceError::MalformedRow { row: 2 }));
}

#[test]
fn table_is_read_behind_its_header() {
    let loaded = parse_trace(b"pc,ap,fp\n1,6,6\n3,7,6\n");
    assert_eq!(loaded, Ok(vec![TraceStep::new(1, 6, 6), TraceStep::new(3, 7, 6)]));
}

#[test]
fn first_record_is_the_header_even_if_it_holds_numbers() {
    let loaded = parse_trace(b"1,6,6\n3,7,6\n");
    assert_eq!(loaded, Ok(vec![TraceStep::new(3, 7, 6)]));
}

#[test]
fn header_alone_is_an_empty_trace() {
    assert_eq!(parse_trace(b"pc,ap,fp\n"), Ok(vec![]));
}

#[test]
fn empty_table_is_an_empty_trace() {
    assert_eq!(parse_trace(b""), Ok(vec![]));
}

#[test]
fn last_record_needs_no_line_end() {
    assert_eq!(parse_trace(b"pc,ap,fp\n1,6,6"), Ok(vec![TraceStep::new(1, 6, 6)]));
}

#[test]
fn both_line_ends_are_read() {
    assert_eq!(
        parse_trace(b"pc,ap,fp\r\n1,6,6\r\n3,7,6\r\n"),
        Ok(vec![TraceStep::new(1, 6, 6), TraceStep::new(3, 7, 6)])
    );
}

#[test]
fn quoted_fields_are_read_without_their_quotes() {
    assert_eq!(parse_trace(b"pc,ap,fp\n\"1\",\"6\",\"6\"\n"), Ok(vec![TraceStep::new(1, 6, 6)]));
}

#[test]
fn written_trace_is_loaded_back() {
    let steps = vec![
        TraceStep::new(1, 6, 6),
        TraceStep::new(3, 7, 6),
        TraceStep::new(0, 0, 0),
        TraceStep::new(usize::MAX, usize::MAX - 1, 12345678901),
        TraceStep::new(3, 7, 6),
    ];
    assert_eq!(parse_trace(&write_table(&steps)), Ok(steps));
}

#[test]
fn long_written_trace_is_loaded_back() {
    let steps: Vec<TraceStep> = (0..5000usize).map(|i| TraceStep::new(i, 2 * i + 1, i / 3)).collect();
    assert_eq!(parse_trace(&write_table(&steps)), Ok(steps));
}

#[test]
fn field_that_is_no_number_fails_the_load() {
    assert_eq!(
        parse_trace(b"pc,ap,fp\n1,6,6\n3,seven,6\n5,8,6\n"),
        Err(TraceError::MalformedRow { row: 1 })
    );
}

#[test]
fn malformed_first_record_is_row_zero() {
    assert_eq!(parse_trace(b"pc,ap,fp\nx,6,6\n"), Err(TraceError::MalformedRow { row: 0 }));
}

#[test]
fn blank_around_a_number_fails_the_load() {
    assert_eq!(parse_trace(b"pc,ap,fp\n1, 6,6\n"), Err(TraceError::MalformedRow { row: 0 }));
}

#[test]
fn negative_number_fails_the_load() {
    assert_eq!(parse_trace(b"pc,ap,fp\n1,-6,6\n"), Err(TraceError::MalformedRow { row: 0 }));
}

#[test]
fn number_beyond_the_word_fails_the_load() {
    let text = format!("pc,ap,fp\n1,6,{}0\n", usize::MAX);
    assert_eq!(parse_trace(text.as_bytes()), Err(TraceError::MalformedRow { row: 0 }));
}

#[test]
fn record_shorter_than_the_header_fails_the_load() {
    assert_eq!(
        parse_trace(b"pc,ap,fp\n1,6,6\n3,7\n"),
        Err(TraceError::MalformedRow { row: 1 })
    );
}

#[test]
fn table_of_two_columns_fails_at_its_first_record() {
    assert_eq!(parse_trace(b"pc,ap\n1,6\n3,7\n"), Err(TraceError::MalformedRow { row: 0 }));
}

#[test]
fn table_of_four_columns_is_read_by_its_first_three() {
    assert_eq!(
        parse_trace(b"pc,ap,fp,note\n1,6,6,start\n3,7,6,\n"),
        Ok(vec![TraceStep::new(1, 6, 6), TraceStep::new(3, 7, 6)])
    );
}

#[test]
fn record_that_is_not_text_fails_the_load() {
    let mut data = b"pc,ap,fp\n1,6,6\n3,7,".to_vec();
    data.push(0xff);
    data.extend_from_slice(b"\n5,8,6\n");
    assert_eq!(parse_trace(&data), Err(TraceError::MalformedRow { row: 1 }));
}

#[test]
fn earlier_bad_number_wins_over_later_bad_record() {
    assert_eq!(
        parse_trace(b"pc,ap,fp\n1,x,6\n3,7\n"),
        Err(TraceError::MalformedRow { row: 0 })
    );
}

#[test]
fn table_that_could_not_be_opened_is_a_resource_error() {
    assert_eq!(load_trace(None), Err(TraceError::Resource));
}

#[test]
fn opened_table_is_loaded() {
    assert_eq!(load_trace(Some(b"pc,ap,fp\n1,6,6\n")), Ok(vec![TraceStep::new(1, 6, 6)]));
    assert_eq!(
        load_trace(Some(b"pc,ap,fp\n1,6,six\n")),
        Err(TraceError::MalformedRow { row: 0 })
    );
}

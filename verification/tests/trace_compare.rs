use trace_conformance::trace::{first_mismatch, TraceStep};

fn sample() -> Vec<TraceStep> {
    vec![TraceStep::new(1, 6, 6), TraceStep::new(3, 7, 6), TraceStep::new(5, 8, 6)]
}

#[test]
fn new_keeps_the_registers_apart() {
    let step = TraceStep::new(1, 2, 3);
    assert_eq!(step.pc, 1);
    assert_eq!(step.ap, 2);
    assert_eq!(step.fp, 3);
    assert_eq!(step, TraceStep { pc: 1, ap: 2, fp: 3 });
}

#[test]
fn equal_traces_have_no_mismatch() {
    let a = sample();
    let b = a.clone();
    assert_eq!(first_mismatch(&a, &b), None);
}

#[test]
fn empty_traces_are_equal() {
    assert_eq!(first_mismatch(&[], &[]), None);
}

#[test]
fn mismatch_in_each_register_is_seen() {
    let a = sample();
    let mut b = sample();
    b[1].pc = 4;
    assert_eq!(first_mismatch(&a, &b), Some(1));
    let mut b = sample();
    b[2].ap = 9;
    assert_eq!(first_mismatch(&a, &b), Some(2));
    let mut b = sample();
    b[0].fp = 7;
    assert_eq!(first_mismatch(&a, &b), Some(0));
}

#[test]
fn first_of_several_mismatches_is_reported() {
    let a = sample();
    let mut b = sample();
    b[1].pc = 4;
    b[2].pc = 6;
    assert_eq!(first_mismatch(&a, &b), Some(1));
}

#[test]
fn shorter_trace_differs_where_it_ends() {
    let a = sample();
    assert_eq!(first_mismatch(&a, &a[..2]), Some(2));
    assert_eq!(first_mismatch(&a[..2], &a), Some(2));
    assert_eq!(first_mismatch(&a, &[]), Some(0));
    assert_eq!(first_mismatch(&[], &a), Some(0));
}

#[test]
fn mismatch_before_the_end_of_the_shorter_trace_wins() {
    let a = sample();
    let mut b = sample();
    b[0].pc = 2;
    b.pop();
    assert_eq!(first_mismatch(&a, &b), Some(0));
}

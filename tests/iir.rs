use idsp::iir::shift_in;

#[test]
fn shift_in_ages_history() {
    // x0 x1 x2 y1 y2
    let mut xy = [1, 2, 3, 4, 5];
    let last = shift_in(&mut xy, 9);
    assert_eq!(last, 3);
    assert_eq!(xy, [9, 1, 2, 3, 4]);
}

#[test]
fn shift_in_replays_last_output_on_hold() {
    // An update that holds stores the returned last output again in the
    // newest output slot; the history otherwise ages as usual.
    let mut xy = [0.5f64, -1.0, 2.0, 7.0, 8.0];
    let last = shift_in(&mut xy, 3.0);
    xy[2] = last;
    assert_eq!(xy, [3.0, 0.5, 2.0, 2.0, 7.0]);
}

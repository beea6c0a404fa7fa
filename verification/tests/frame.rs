use http_rater::frame::ptr_at;

#[test]
fn view_inside_the_frame_is_returned() {
    let frame: [u8; 5] = [10, 20, 30, 40, 50];
    assert_eq!(ptr_at(&frame, 1, 3), Some(&frame[1..4]));
    assert_eq!(ptr_at(&frame, 0, 5), Some(&frame[..]));
}

#[test]
fn view_past_the_end_is_refused() {
    let frame: [u8; 5] = [10, 20, 30, 40, 50];
    assert_eq!(ptr_at(&frame, 3, 3), None);
    assert_eq!(ptr_at(&frame, 5, 1), None);
    assert_eq!(ptr_at(&frame, 6, 0), None);
}

#[test]
fn empty_view_at_the_boundary_is_allowed() {
    let frame: [u8; 5] = [10, 20, 30, 40, 50];
    assert_eq!(ptr_at(&frame, 5, 0), Some(&frame[5..]));
    assert_eq!(ptr_at(&[], 0, 0), Some(&[][..]));
}

#[test]
fn huge_offsets_do_not_wrap_around() {
    let frame: [u8; 5] = [10, 20, 30, 40, 50];
    assert_eq!(ptr_at(&frame, usize::MAX, 2), None);
    assert_eq!(ptr_at(&frame, 2, usize::MAX), None);
    assert_eq!(ptr_at(&frame, usize::MAX, usize::MAX), None);
}

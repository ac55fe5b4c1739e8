use monorail::select::{select2, Select2Result};

#[test]
fn test_sel2() {
    let pending: Option<i32> = None;
    let multi = select2(Some(32), || pending);
    assert_eq!(multi, Some(Select2Result::Left(32)));

    let multi = select2(pending, || Some(32));
    assert_eq!(multi, Some(Select2Result::Right(32)));
}

#[test]
fn select_both_pending() {
    let r: Option<Select2Result<u8, u8>> = select2(None, || None);
    assert_eq!(r, None);
}

#[test]
fn select_left_wins_without_polling_right() {
    let mut polled = false;
    let r: Option<Select2Result<u8, u8>> = select2(Some(1), || {
        polled = true;
        Some(2)
    });
    assert_eq!(r, Some(Select2Result::Left(1)));
    assert!(!polled);
}

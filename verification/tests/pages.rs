use pixel2d::pages::Pages;

#[test]
fn pages() {
    let mut p = Pages::new(());
    p.add((), 4);
    p.add((), 3);

    assert_eq!(p.get(0), Some(&()));
    assert_eq!(p.get(1), None);
    assert_eq!(p.get(2), None);
    assert_eq!(p.get(3), Some(&()));
    assert_eq!(p.get(4), Some(&()));
    assert_eq!(p.get(5), None);
    assert_eq!(p.pages.len(), 4);
}

#[test]
fn get_or_first() {
    let mut p = Pages::new(1);
    p.add(0, 2);

    assert_eq!(p.get_or_first(0), &1);
    assert_eq!(p.get_or_first(1), &1);
    assert_eq!(p.get_or_first(2), &0);
    assert_eq!(p.get_or_first(3), &1);
}

#[test]
fn adding_reserves_lower_indices_as_absent() {
    let mut p = Pages::new(10);

    assert_eq!(p.len(), 0);

    p.add(40, 7);

    assert_eq!(p.len(), 7);
    assert_eq!(p.get(0), Some(&10));

    for k in 1..7 {
        assert_eq!(p.get(k), None);
    }

    assert_eq!(p.get(7), Some(&40));
    assert_eq!(p.get(8), None);
}

#[test]
fn add_overwrites_and_keeps_others() {
    let mut p = Pages::new(0);
    p.add(1, 1);
    p.add(2, 2);
    p.add(9, 1);

    assert_eq!(p.get(1), Some(&9));
    assert_eq!(p.get(2), Some(&2));
    assert_eq!(p.len(), 2);
}

use actix_practice::addone::{add_one_to_body, last_number, number_page, todays_number_page};

#[test]
fn number_page_text() {
    assert_eq!(number_page(7), "random number of today : 7");
    assert_eq!(number_page(-3), "random number of today : -3");
}

#[test]
fn adds_one_to_the_page_number() {
    let body = number_page(42);
    assert_eq!(last_number(&body), Some(42));
    assert_eq!(add_one_to_body(&body), "random number of today : 43");
}

#[test]
fn add_one_of_each_page_is_the_next_page() {
    for n in 1..=100 {
        assert_eq!(add_one_to_body(&number_page(n)), number_page(n + 1));
    }
}

#[test]
fn replaces_every_occurrence() {
    assert_eq!(add_one_to_body("9 lives: 9"), "10 lives: 10");
    assert_eq!(add_one_to_body("a: 1 : 11"), "a: 1 : 12");
    assert_eq!(add_one_to_body("1 and 11: 1"), "2 and 22: 2");
}

#[test]
fn keeps_bodies_without_a_number() {
    assert_eq!(last_number("no number here"), None);
    assert_eq!(add_one_to_body("no number here"), "no number here");
    assert_eq!(add_one_to_body("value: 4x"), "value: 4x");
    assert_eq!(add_one_to_body("value: "), "value: ");
}

#[test]
fn handles_signs_and_spaces() {
    assert_eq!(add_one_to_body("t: -1"), "t: 0");
    assert_eq!(add_one_to_body("t:\t+5 "), "t:\t+6 ");
    assert_eq!(last_number("x: 2147483647"), Some(i32::MAX));
}

#[test]
fn todays_page_is_in_range() {
    for _ in 0..50 {
        let page = todays_number_page();
        let n = last_number(&page).unwrap();
        assert!((1..=100).contains(&n));
        assert_eq!(page, number_page(n));
    }
}

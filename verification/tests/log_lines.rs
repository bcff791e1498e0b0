use lazy_net::log_lines::{LogLines, BUFFER_CAPACITY};

#[test]
fn a_new_store_is_empty() {
    let store = LogLines::default();
    assert!(store.lines().is_empty());
    assert_eq!(store.vertical_scroll(), 0);
    assert_eq!(BUFFER_CAPACITY, 20);
}

#[test]
fn the_newest_line_comes_first_and_is_selected() {
    let mut store = LogLines::default();
    store.add_line(String::from("one"));
    assert_eq!(store.lines(), &vec![String::from("one")]);
    assert_eq!(store.vertical_scroll(), 0);
    store.add_line(String::from("two"));
    store.add_line(String::from("three"));
    assert_eq!(
        store.lines(),
        &vec![
            String::from("three"),
            String::from("two"),
            String::from("one")
        ]
    );
    assert_eq!(store.vertical_scroll(), 2);
}

#[test]
fn a_full_store_gives_up_its_oldest_line() {
    let mut store = LogLines::default();
    for i in 0..20 {
        store.add_line(format!("line {i}"));
    }
    assert_eq!(store.lines().len(), 20);
    assert_eq!(store.lines()[19], "line 0");
    store.add_line(String::from("line 20"));
    assert_eq!(store.lines().len(), 20);
    assert_eq!(store.lines()[0], "line 20");
    assert_eq!(store.lines()[19], "line 1");
    assert_eq!(store.vertical_scroll(), 19);
    for i in 21..100 {
        store.add_line(format!("line {i}"));
        assert_eq!(store.lines().len(), 20);
    }
    assert_eq!(store.lines()[0], "line 99");
    assert_eq!(store.lines()[19], "line 80");
}

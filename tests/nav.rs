use maym::nav::{ListNav, Scroll};

#[test]
fn list_wraps_both_ways() {
    let mut nav = ListNav::new(3, 2);
    nav.down();
    assert_eq!(nav.selected, 0);
    nav.up();
    assert_eq!(nav.selected, 2);
    nav.up();
    assert_eq!(nav.selected, 1);
}

#[test]
fn empty_list_stays_on_zero() {
    let mut nav = ListNav::new(0, 0);
    nav.down();
    assert_eq!(nav.selected, 0);
    nav.up();
    assert_eq!(nav.selected, 0);
    nav.end();
    assert_eq!(nav.selected, 0);
}

#[test]
fn paging_needs_a_layout() {
    let mut nav = ListNav::new(50, 0);
    nav.pg_down();
    assert_eq!(nav, ListNav::new(50, 0));

    nav.layout(10);
    assert_eq!(nav.offset, 40);
    nav.home();
    assert_eq!((nav.selected, nav.offset), (0, 0));
    nav.pg_down();
    assert_eq!((nav.selected, nav.offset), (10, 10));
    for _ in 0..5 {
        nav.pg_down();
    }
    assert_eq!((nav.selected, nav.offset), (49, 40));
    nav.pg_up();
    assert_eq!((nav.selected, nav.offset), (39, 30));
    nav.layout(20);
    assert_eq!(nav.offset, 30);
    nav.end();
    assert_eq!((nav.selected, nav.offset), (49, 30));
}

#[test]
fn selecting_moves_the_window_to_the_end() {
    let mut nav = ListNav::new(30, 0);
    nav.select(4);
    assert_eq!((nav.selected, nav.offset), (4, usize::MAX));
    nav.layout(8);
    nav.select(5);
    assert_eq!((nav.selected, nav.offset), (5, 22));
    nav.reset(5, 1);
    assert_eq!((nav.len, nav.selected, nav.offset), (5, 1, 0));
    nav.change_len(9);
    assert_eq!((nav.len, nav.selected), (9, 0));
    nav.scrolled_to(3);
    assert_eq!(nav.offset, 3);
}

#[test]
fn text_scroll_stays_within_the_text() {
    let mut s = Scroll::new();
    s.fit(30, 10);
    assert_eq!(s.max_scroll, 20);
    for _ in 0..25 {
        s.down();
    }
    assert_eq!(s.scroll, 20);
    s.up();
    assert_eq!(s.scroll, 19);
    s.fit(15, 10);
    assert_eq!((s.scroll, s.max_scroll), (5, 5));
    s.home();
    assert_eq!(s.scroll, 0);
    s.up();
    assert_eq!(s.scroll, 0);
    s.end();
    assert_eq!(s.scroll, 5);
    s.fit(3, 10);
    assert_eq!((s.scroll, s.max_scroll), (0, 0));
    s.fit(usize::MAX, 0);
    assert_eq!(s.max_scroll, u16::MAX);
}

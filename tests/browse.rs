use maym::browse::{sort_entries, Entry};
use maym::order::Ranked;
use std::cmp::Ordering;

fn child(path: &str) -> Entry {
    Entry { is_list: true, path: path.to_string() }
}

fn mp3(path: &str) -> Entry {
    Entry { is_list: false, path: path.to_string() }
}

#[test]
fn config_ord() {
    let zer3 = mp3("00");
    let one3 = mp3("01");

    let zerc = child("00");
    let onec = child("01");

    assert_eq!(zer3.compare(&one3), Ordering::Less);
    assert_eq!(zer3.compare(&zer3), Ordering::Equal);

    assert_eq!(zerc.compare(&onec), Ordering::Less);
    assert_eq!(zerc.compare(&zerc), Ordering::Equal);

    assert_eq!(zer3.compare(&zerc), Ordering::Greater);
    assert_eq!(one3.compare(&zerc), Ordering::Greater);

    assert_eq!(zerc.compare(&zer3), Ordering::Less);
    assert_eq!(zerc.compare(&one3), Ordering::Less);
}

#[test]
fn case_ord() {
    let one = mp3("a");
    let two = mp3("B");
    let thr = mp3("A");
    let fou = mp3("b");

    assert_eq!(one.compare(&two), Ordering::Less);
    assert_eq!(two.compare(&one), Ordering::Greater);
    assert_eq!(thr.compare(&fou), Ordering::Less);
    assert_eq!(fou.compare(&thr), Ordering::Greater);

    assert_eq!(one.compare(&thr), Ordering::Equal);
    assert_eq!(thr.compare(&one), Ordering::Equal);
    assert_eq!(two.compare(&fou), Ordering::Equal);
    assert_eq!(fou.compare(&two), Ordering::Equal);
}

#[test]
fn unicode_ord() {
    let one = mp3("ä");
    let two = mp3("Ü");
    let thr = mp3("Ä");
    let fou = mp3("ü");

    assert_eq!(one.compare(&two), Ordering::Less);
    assert_eq!(two.compare(&one), Ordering::Greater);
    assert_eq!(thr.compare(&fou), Ordering::Less);
    assert_eq!(fou.compare(&thr), Ordering::Greater);

    assert_eq!(one.compare(&thr), Ordering::Equal);
    assert_eq!(thr.compare(&one), Ordering::Equal);
    assert_eq!(two.compare(&fou), Ordering::Equal);
    assert_eq!(fou.compare(&two), Ordering::Equal);
}

#[test]
fn children() {
    let found = vec![
        mp3("mock/list 01/track 01.mp3"),
        child("mock/list 01/sub 02"),
        mp3("mock/list 01/track 00.mp3"),
        child("mock/list 01/sub 01"),
    ];
    let comp = vec![
        (true, "mock/list 01/sub 01"),
        (true, "mock/list 01/sub 02"),
        (false, "mock/list 01/track 00.mp3"),
        (false, "mock/list 01/track 01.mp3"),
    ];

    let children = sort_entries(found);
    let children: Vec<(bool, &str)> = children.iter().map(|e| (e.is_list, e.path.as_str())).collect();
    assert_eq!(children, comp);
}

#[test]
fn browser_lists_directories_first_without_regard_to_case() {
    let entries = vec![mp3("d/b.mp3"), child("d/Zeta"), mp3("d/A.mp3"), child("d/alpha"), mp3("d/a.mp3")];
    let sorted: Vec<(bool, String)> = sort_entries(entries).into_iter().map(|e| (e.is_list, e.path)).collect();
    assert_eq!(
        sorted,
        vec![
            (true, "d/alpha".to_string()),
            (true, "d/Zeta".to_string()),
            (false, "d/A.mp3".to_string()),
            (false, "d/a.mp3".to_string()),
            (false, "d/b.mp3".to_string()),
        ]
    );
}

use ec2_by_name::idset::IdSet;
use ec2_by_name::lexical::str_lt;

fn set_of(ids: &[&str]) -> IdSet {
    let mut set = IdSet::new();
    for id in ids {
        set.insert(id.to_string());
    }
    set
}

fn strings(ids: &[&str]) -> Vec<String> {
    ids.iter().map(|id| id.to_string()).collect()
}

#[test]
fn str_lt_orders_by_first_difference() {
    assert!(str_lt("i-0a", "i-0b"));
    assert!(!str_lt("i-0b", "i-0a"));
    assert!(str_lt("i-1", "i-2"));
    assert!(str_lt("A", "a"));
}

#[test]
fn str_lt_puts_a_prefix_first() {
    assert!(str_lt("i-1", "i-10"));
    assert!(!str_lt("i-10", "i-1"));
    assert!(str_lt("", "a"));
    assert!(!str_lt("a", ""));
}

#[test]
fn str_lt_is_strict() {
    assert!(!str_lt("i-1", "i-1"));
    assert!(!str_lt("", ""));
}

#[test]
fn str_lt_agrees_with_std_on_text_beyond_ascii() {
    let words = ["", "a", "z", "é", "日本", "日", "\u{10ffff}", "zz", "\u{e000}", "\u{d7ff}"];
    for a in words {
        for b in words {
            assert_eq!(str_lt(a, b), a < b, "{:?} {:?}", a, b);
        }
    }
}

#[test]
fn new_set_is_empty() {
    let set = IdSet::new();
    assert_eq!(set.len(), 0);
    assert!(set.is_empty());
    assert!(!set.contains("i-1"));
    assert_eq!(set.to_sorted_vec(), Vec::<String>::new());
}

#[test]
fn insert_tells_whether_the_id_was_new() {
    let mut set = IdSet::new();
    assert!(set.insert("i-2".to_string()));
    assert!(set.insert("i-1".to_string()));
    assert!(!set.insert("i-2".to_string()));
    assert_eq!(set.len(), 2);
    assert!(!set.is_empty());
    assert!(set.contains("i-1"));
    assert!(set.contains("i-2"));
    assert!(!set.contains("i-3"));
}

#[test]
fn listing_is_sorted_whatever_the_order_of_insertion() {
    let set = set_of(&["i-c", "i-a", "i-b", "i-a", "i-10", "i-1", "i-9"]);
    assert_eq!(set.to_sorted_vec(), strings(&["i-1", "i-10", "i-9", "i-a", "i-b", "i-c"]));
}

#[test]
fn from_vec_drops_repeats_and_sorts() {
    let set = IdSet::from_vec(&strings(&["b", "a", "b", "c", "a"]));
    assert_eq!(set.len(), 3);
    assert_eq!(set.to_sorted_vec(), strings(&["a", "b", "c"]));
}

#[test]
fn listing_a_set_again_changes_nothing() {
    let once = IdSet::from_vec(&strings(&["i-3", "i-1", "i-3", "i-2"])).to_sorted_vec();
    let twice = IdSet::from_vec(&once).to_sorted_vec();
    assert_eq!(once, twice);
    assert_eq!(once, strings(&["i-1", "i-2", "i-3"]));
}

#[test]
fn absorb_is_the_union() {
    let mut left = set_of(&["i-1", "i-3"]);
    let right = set_of(&["i-2", "i-3", "i-4"]);
    left.absorb(&right);
    assert_eq!(left.to_sorted_vec(), strings(&["i-1", "i-2", "i-3", "i-4"]));
    assert_eq!(right.to_sorted_vec(), strings(&["i-2", "i-3", "i-4"]));
}

#[test]
fn absorb_of_the_empty_set_changes_nothing() {
    let mut left = set_of(&["i-1"]);
    left.absorb(&IdSet::new());
    assert_eq!(left.to_sorted_vec(), strings(&["i-1"]));
    let mut empty = IdSet::new();
    empty.absorb(&left);
    assert_eq!(empty.to_sorted_vec(), strings(&["i-1"]));
}

#[test]
fn many_ids_stay_sorted_and_single() {
    let mut set = IdSet::new();
    for round in 0..3 {
        for n in (0..200).rev() {
            let fresh = set.insert(format!("i-{:04}", (n * 7) % 200));
            assert_eq!(fresh, round == 0);
        }
    }
    let list = set.to_sorted_vec();
    assert_eq!(list.len(), 200);
    for n in 0..200 {
        assert_eq!(list[n], format!("i-{:04}", n));
    }
}

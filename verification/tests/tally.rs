use rvtools2vse::tally::{tally, Entry, Total};
use rvtools2vse::text::{sorted_distinct, with_suffix};
use rvtools2vse::vecs::{clone_optional_text, clone_optional_texts, clone_texts};

fn entry(first: &str, second: &str, amount: u64) -> Entry {
    Entry { key: (first.to_string(), second.to_string()), amount }
}

fn total(first: &str, second: &str, count: usize, amount: u128) -> Total {
    Total { key: (first.to_string(), second.to_string()), count, amount }
}

fn texts(values: &[&str]) -> Vec<String> {
    values.iter().map(|value| value.to_string()).collect()
}

#[test]
fn a_tally_counts_and_totals_by_key_in_ascending_order() {
    let entries = vec![
        entry("b", "x", 1),
        entry("a", "y", 2),
        entry("b", "x", 4),
        entry("a", "x", 8),
        entry("b", "", 16),
        entry("a", "y", 32),
    ];
    assert_eq!(
        tally(entries),
        vec![
            total("a", "x", 1, 8),
            total("a", "y", 2, 34),
            total("b", "", 1, 16),
            total("b", "x", 2, 5),
        ]
    );
}

#[test]
fn a_tally_of_nothing_is_empty() {
    assert!(tally(Vec::new()).is_empty());
}

#[test]
fn a_tally_accounts_for_every_entry() {
    let entries: Vec<Entry> =
        (0..100u64).map(|i| entry(&format!("k{}", i % 7), &format!("{}", i % 3), i)).collect();
    let totals = tally(entries);
    assert_eq!(totals.len(), 21);
    assert_eq!(totals.iter().map(|t| t.count).sum::<usize>(), 100);
    assert_eq!(totals.iter().map(|t| t.amount).sum::<u128>(), 4950);
    assert!(totals.windows(2).all(|pair| pair[0].key < pair[1].key));
}

#[test]
fn totals_hold_sums_beyond_one_amount() {
    let entries = vec![entry("a", "", u64::MAX), entry("a", "", u64::MAX), entry("a", "", 2)];
    assert_eq!(tally(entries), vec![total("a", "", 3, 2 * (u64::MAX as u128) + 2)]);
}

#[test]
fn keys_are_ordered_by_code_point() {
    let entries = vec![
        entry("b", "", 1),
        entry("B", "", 1),
        entry("", "", 1),
        entry("ab", "", 1),
        entry("a", "", 1),
        entry("é", "", 1),
        entry("z", "", 1),
    ];
    let firsts: Vec<String> = tally(entries).into_iter().map(|t| t.key.0).collect();
    assert_eq!(firsts, texts(&["", "B", "a", "ab", "b", "z", "é"]));
}

#[test]
fn sorted_distinct_texts_ascend_without_repeats() {
    assert_eq!(sorted_distinct(texts(&["b", "a", "c", "a", "b", "a"])), texts(&["a", "b", "c"]));
    assert_eq!(sorted_distinct(texts(&["x"])), texts(&["x"]));
    assert_eq!(sorted_distinct(texts(&["x", "x"])), texts(&["x"]));
    assert!(sorted_distinct(Vec::new()).is_empty());
}

#[test]
fn a_suffix_goes_to_the_end() {
    assert_eq!(with_suffix(&"east".to_string(), "_cluster"), "east_cluster");
    assert_eq!(with_suffix(&String::new(), "_repo"), "_repo");
    assert_eq!(with_suffix(&"a".to_string(), ""), "a");
}

#[test]
fn copies_keep_their_values() {
    let list = texts(&["a", "b"]);
    assert_eq!(clone_texts(&list), list);
    assert_eq!(clone_optional_texts(&Some(list.clone())), Some(list.clone()));
    assert_eq!(clone_optional_texts(&None), None);
    assert_eq!(clone_optional_text(&Some("x".to_string())), Some("x".to_string()));
    assert_eq!(clone_optional_text(&None), None);
}

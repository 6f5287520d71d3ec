use konjac::history::{HistoryEntry, TranslationHistory, MAX_ENTRIES};

fn ids(h: &TranslationHistory) -> Vec<u64> {
    h.entries().iter().map(|e| e.id).collect()
}

#[test]
fn push_puts_newest_first_with_fresh_ids() {
    let mut h = TranslationHistory::new();
    h.push("first".to_string());
    h.push("second".to_string());
    assert_eq!(ids(&h), vec![1, 0]);
    assert_eq!(h.entries()[0].text, "second");
    assert_eq!(h.entries()[1].text, "first");
    assert_eq!(h.next_id(), 2);
}

#[test]
fn push_stamps_current_time() {
    let mut h = TranslationHistory::new();
    h.push("now".to_string());
    // Any run of this test happens well after 2020-01-01.
    assert!(h.entries()[0].timestamp > 1_577_836_800);
}

#[test]
fn push_at_keeps_given_timestamp() {
    let mut h = TranslationHistory::new();
    h.push_at("hello".to_string(), 42);
    assert_eq!(h.entries().len(), 1);
    assert_eq!(h.entries()[0].id, 0);
    assert_eq!(h.entries()[0].text, "hello");
    assert_eq!(h.entries()[0].timestamp, 42);
}

#[test]
fn push_truncates_to_max_entries() {
    let mut h = TranslationHistory::new();
    for i in 0..25u64 {
        h.push_at(format!("t{}", i), i);
    }
    assert_eq!(h.entries().len(), MAX_ENTRIES);
    assert_eq!(h.entries()[0].id, 24);
    assert_eq!(h.entries()[0].text, "t24");
    assert_eq!(h.entries()[MAX_ENTRIES - 1].id, 5);
    assert_eq!(h.next_id(), 25);
}

#[test]
fn remove_drops_only_matching_id() {
    let mut h = TranslationHistory::new();
    for i in 0..4u64 {
        h.push_at(format!("t{}", i), 100 + i);
    }
    h.remove(2);
    assert_eq!(ids(&h), vec![3, 1, 0]);
    assert_eq!(h.entries()[1].text, "t1");
    assert_eq!(h.next_id(), 4);
}

#[test]
fn remove_missing_id_changes_nothing() {
    let mut h = TranslationHistory::new();
    h.push_at("a".to_string(), 1);
    h.push_at("b".to_string(), 2);
    h.remove(99);
    assert_eq!(ids(&h), vec![1, 0]);
}

#[test]
fn remove_after_push_restores_previous_entries() {
    let mut h = TranslationHistory::new();
    h.push_at("a".to_string(), 1);
    h.push_at("b".to_string(), 2);
    let before = ids(&h);
    let new_id = h.next_id();
    h.push_at("c".to_string(), 3);
    h.remove(new_id);
    assert_eq!(ids(&h), before);
}

#[test]
fn remove_after_push_on_full_history_loses_oldest() {
    let mut h = TranslationHistory::new();
    for i in 0..MAX_ENTRIES as u64 {
        h.push_at(format!("t{}", i), i);
    }
    let before = ids(&h);
    let new_id = h.next_id();
    h.push_at("extra".to_string(), 0);
    h.remove(new_id);
    assert_eq!(ids(&h), before[..MAX_ENTRIES - 1].to_vec());
}

#[test]
fn remove_twice_same_as_once() {
    let mut h = TranslationHistory::new();
    for i in 0..3u64 {
        h.push_at(format!("t{}", i), i);
    }
    h.remove(1);
    let once = ids(&h);
    h.remove(1);
    assert_eq!(ids(&h), once);
}

#[test]
fn remove_drops_every_entry_with_id() {
    let entries = vec![
        HistoryEntry { id: 5, text: "x".to_string(), timestamp: 1 },
        HistoryEntry { id: 3, text: "y".to_string(), timestamp: 2 },
        HistoryEntry { id: 5, text: "z".to_string(), timestamp: 3 },
    ];
    let mut h = TranslationHistory::restore(entries, 6);
    h.remove(5);
    assert_eq!(ids(&h), vec![3]);
    assert_eq!(h.entries()[0].text, "y");
}

#[test]
fn clear_empties_but_keeps_counting() {
    let mut h = TranslationHistory::new();
    h.push_at("a".to_string(), 1);
    h.push_at("b".to_string(), 2);
    h.clear();
    assert!(h.entries().is_empty());
    h.push_at("c".to_string(), 3);
    assert_eq!(ids(&h), vec![2]);
}

#[test]
fn default_is_empty() {
    let h = TranslationHistory::default();
    assert!(h.entries().is_empty());
    assert_eq!(h.next_id(), 0);
}

#[test]
fn restore_keeps_entries_and_counter() {
    let entries = vec![HistoryEntry { id: 7, text: "kept".to_string(), timestamp: 9 }];
    let mut h = TranslationHistory::restore(entries, 8);
    assert_eq!(h.next_id(), 8);
    h.push_at("new".to_string(), 10);
    assert_eq!(ids(&h), vec![8, 7]);
}

#[test]
fn history_entry_clones() {
    let e = HistoryEntry { id: 1, text: "t".to_string(), timestamp: 2 };
    let c = e.clone();
    assert_eq!((c.id, c.text, c.timestamp), (1, "t".to_string(), 2));
}

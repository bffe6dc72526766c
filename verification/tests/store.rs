use ai_copilot::store::{
    capture_file_name, entry_is_capture, name_has_png_extension, prune_captures,
    screenshot_file_name, DirEntry, MAX_CAPTURE_FILES,
};

fn entry(name: &str, modified: i128) -> DirEntry {
    DirEntry { name: String::from(name), modified: Some(modified) }
}

fn survivors(entries: &[DirEntry], removed: &[usize]) -> Vec<String> {
    entries
        .iter()
        .enumerate()
        .filter(|(position, _)| !removed.contains(position))
        .map(|(_, entry)| entry.name.clone())
        .collect()
}

#[test]
fn the_cache_keeps_ten_files() {
    assert_eq!(MAX_CAPTURE_FILES, 10);
}

#[test]
fn capture_names_carry_the_timestamp() {
    assert_eq!(capture_file_name(1700000000123), "capture-1700000000123.png");
    assert_eq!(capture_file_name(0), "capture-0.png");
    assert_eq!(screenshot_file_name(42), "ai-copilot-screen-42.png");
}

#[test]
fn capture_names_have_the_png_extension() {
    assert!(name_has_png_extension(&capture_file_name(1700000000123)));
    assert!(name_has_png_extension(&capture_file_name(0)));
}

#[test]
fn png_extension_is_what_std_calls_it() {
    for name in
        ["a.png", ".png", "..png", "png", "a.PNG", "a.png.txt", "a.jpg", "", "capture-1.png", "x.pngg", "é.png"]
    {
        let expected = std::path::Path::new(name).extension().and_then(|ext| ext.to_str())
            == Some("png");
        assert_eq!(name_has_png_extension(name), expected, "{name}");
    }
}

#[test]
fn only_png_files_with_a_known_time_are_captures() {
    assert!(entry_is_capture(&entry("a.png", 5)));
    assert!(!entry_is_capture(&entry("a.txt", 5)));
    assert!(!entry_is_capture(&DirEntry { name: String::from("a.png"), modified: None }));
}

#[test]
fn nothing_is_pruned_within_the_cap() {
    let entries: Vec<DirEntry> = (0..10).map(|i| entry(&format!("capture-{i}.png"), i)).collect();
    assert_eq!(prune_captures(&entries, 10), Vec::<usize>::new());
    assert_eq!(prune_captures(&Vec::new(), 10), Vec::<usize>::new());
}

#[test]
fn the_oldest_file_leaves_when_there_is_one_too_many() {
    let mut entries: Vec<DirEntry> =
        (0..11).map(|i| entry(&format!("capture-{i}.png"), 1000 + i)).collect();
    entries.swap(0, 7);
    // The oldest file, capture-0, is now listed at position 7.
    assert_eq!(prune_captures(&entries, 10), vec![7]);
}

#[test]
fn oldest_files_leave_oldest_first() {
    let entries = vec![
        entry("c.png", 30),
        entry("a.png", 10),
        entry("e.png", 50),
        entry("b.png", 20),
        entry("d.png", 40),
    ];
    assert_eq!(prune_captures(&entries, 2), vec![1, 3, 0]);
    assert_eq!(survivors(&entries, &prune_captures(&entries, 2)), vec!["e.png", "d.png"]);
    assert_eq!(prune_captures(&entries, 0), vec![1, 3, 0, 4, 2]);
}

#[test]
fn files_of_the_same_age_leave_in_listing_order() {
    let entries = vec![entry("x.png", 5), entry("y.png", 5), entry("z.png", 5), entry("w.png", 1)];
    assert_eq!(prune_captures(&entries, 1), vec![3, 0, 1]);
}

#[test]
fn other_files_are_neither_counted_nor_removed() {
    let entries = vec![
        entry("notes.txt", 1),
        entry("b.png", 20),
        DirEntry { name: String::from("unknown.png"), modified: None },
        entry("a.png", 10),
        entry("c.png", 30),
        entry(".png", 2),
    ];
    assert_eq!(prune_captures(&entries, 3), Vec::<usize>::new());
    assert_eq!(prune_captures(&entries, 2), vec![3]);
    assert_eq!(prune_captures(&entries, 1), vec![3, 1]);
}

#[test]
fn times_before_the_epoch_are_older() {
    let entries = vec![entry("new.png", 5), entry("old.png", -5)];
    assert_eq!(prune_captures(&entries, 1), vec![1]);
}

#[test]
fn pruning_agrees_with_a_stable_sort() {
    let stamps: [i128; 12] = [7, 3, 9, 3, 1, 8, 7, 2, 9, 0, 4, 3];
    let entries: Vec<DirEntry> =
        stamps.iter().enumerate().map(|(i, stamp)| entry(&format!("f{i}.png"), *stamp)).collect();
    for cap in 0..14usize {
        let mut order: Vec<usize> = (0..entries.len()).collect();
        order.sort_by_key(|position| stamps[*position]);
        order.truncate(entries.len().saturating_sub(cap));
        assert_eq!(prune_captures(&entries, cap), order);
    }
}

#[test]
fn retention_keeps_the_files_written_last() {
    // Fifteen writes into an empty cache, each followed by the sweep.
    let mut cache: Vec<DirEntry> = Vec::new();
    for write in 0..15u128 {
        cache.push(entry(&capture_file_name(1000 + write), (1000 + write) as i128));
        let removed = prune_captures(&cache, MAX_CAPTURE_FILES);
        let mut position = 0usize;
        cache.retain(|_| {
            let keep = !removed.contains(&position);
            position += 1;
            keep
        });
        assert_eq!(cache.len(), std::cmp::min(write as usize + 1, MAX_CAPTURE_FILES));
    }
    let names: Vec<String> = cache.iter().map(|entry| entry.name.clone()).collect();
    let expected: Vec<String> = (5..15u128).map(|write| capture_file_name(1000 + write)).collect();
    assert_eq!(names, expected);
}

#[test]
fn newest_captures_stay_whatever_the_order_of_the_listing() {
    let stamps: [i128; 7] = [40, 10, 70, 20, 60, 30, 50];
    let entries: Vec<DirEntry> =
        stamps.iter().map(|stamp| entry(&format!("capture-{stamp}.png"), *stamp)).collect();
    for cap in 0..9usize {
        let removed = prune_captures(&entries, cap);
        assert_eq!(removed.len(), stamps.len().saturating_sub(cap));
        let newest_removed = removed.iter().map(|position| stamps[*position]).max();
        let oldest_kept = (0..stamps.len())
            .filter(|position| !removed.contains(position))
            .map(|position| stamps[position])
            .min();
        if let (Some(removed), Some(kept)) = (newest_removed, oldest_kept) {
            assert!(removed < kept);
        }
    }
}

use margo::listing::{merge_names, DirEntry};
use margo::picker::{entry_is_shown, DirectoryPicker, PickerAction, PickerKey, PickerResult};

fn entry(name: &str, is_dir: bool) -> DirEntry {
    DirEntry { name: name.to_string(), path: format!("/tmp/{}", name), is_dir }
}

fn entries(n: usize) -> Vec<DirEntry> {
    (0..n).map(|i| entry(&format!("e{:02}", i), i % 2 == 0)).collect()
}

fn picker(n: usize) -> DirectoryPicker {
    let mut p = DirectoryPicker::new("Pick", "/tmp");
    p.refresh_entries(None, &entries(n));
    p
}

fn names(p: &DirectoryPicker) -> Vec<&str> {
    p.entries.iter().map(|e| e.name.as_str()).collect()
}

#[test]
fn test_dir_entry_creation() {
    let entry = DirEntry {
        name: "test".to_string(),
        path: "/tmp/test".to_string(),
        is_dir: true,
    };
    assert!(entry.is_dir);
    assert_eq!(entry.name, "test");
}

#[test]
fn new_picker_selects_the_first_row() {
    let p = DirectoryPicker::new("Pick", "/tmp");
    assert_eq!(p.prompt, "Pick");
    assert_eq!(p.current_dir, "/tmp");
    assert!(p.entries.is_empty());
    assert_eq!((p.selected, p.scroll_offset, p.visible_rows), (0, 0, 15));
    assert_eq!(p.filter, "");
}

#[test]
fn entries_are_listed_directories_first() {
    let listing = vec![
        entry("zeta.txt", false),
        entry("Beta", true),
        entry(".hidden", true),
        entry("alpha", true),
        entry("Alpha.md", false),
        entry(".env", false),
        entry("gamma", true),
        entry("ALPHA", true),
    ];
    let mut p = DirectoryPicker::new("Pick", "/tmp/x");
    p.refresh_entries(Some("/tmp"), &listing);
    assert_eq!(names(&p), vec!["..", "alpha", "ALPHA", "Beta", "gamma", "Alpha.md", "zeta.txt"]);
    assert_eq!(p.entries[0].path, "/tmp");
    assert!(p.entries[0].is_dir);
    assert_eq!(p.entries[3].path, "/tmp/Beta");
    p.refresh_entries(None, &listing);
    assert_eq!(names(&p), vec!["alpha", "ALPHA", "Beta", "gamma", "Alpha.md", "zeta.txt"]);
    p.filter = "AL".to_string();
    p.refresh_entries(None, &listing);
    assert_eq!(names(&p), vec!["alpha", "ALPHA", "Alpha.md"]);
    p.filter = ".".to_string();
    p.refresh_entries(None, &listing);
    assert_eq!(names(&p), vec![".hidden", ".env", "Alpha.md", "zeta.txt"]);
    p.filter = "nothing".to_string();
    p.selected = 2;
    p.scroll_offset = 1;
    p.refresh_entries(Some("/"), &listing);
    assert_eq!(names(&p), vec![".."]);
    assert_eq!((p.selected, p.scroll_offset), (0, 0));
}

#[test]
fn shown_entries_follow_the_filter() {
    assert!(entry_is_shown(&entry("Data", true), ""));
    assert!(!entry_is_shown(&entry(".git", true), ""));
    assert!(!entry_is_shown(&entry(".git", true), "g"));
    assert!(entry_is_shown(&entry(".git", true), ".g"));
    assert!(entry_is_shown(&entry("Data", true), "at"));
    assert!(entry_is_shown(&entry("data", true), "DA"));
    assert!(!entry_is_shown(&entry("data", true), "x"));
    assert!(!entry_is_shown(&entry("data", true), ".d"));
}

#[test]
fn moving_stops_at_the_ends() {
    let mut p = picker(2);
    p.move_up();
    assert_eq!(p.selected, 0);
    p.move_down();
    assert_eq!(p.selected, 1);
    p.move_down();
    assert_eq!(p.selected, 1);
    let mut empty = picker(0);
    empty.move_down();
    empty.move_up();
    assert_eq!((empty.selected, empty.scroll_offset), (0, 0));
}

#[test]
fn window_follows_the_selection() {
    let mut p = picker(40);
    for _ in 0..14 {
        p.move_down();
    }
    assert_eq!((p.selected, p.scroll_offset), (14, 0));
    p.move_down();
    assert_eq!((p.selected, p.scroll_offset), (15, 1));
    for _ in 0..30 {
        p.move_down();
    }
    assert_eq!((p.selected, p.scroll_offset), (39, 25));
    p.move_up();
    assert_eq!((p.selected, p.scroll_offset), (38, 25));
    for _ in 0..14 {
        p.move_up();
    }
    assert_eq!((p.selected, p.scroll_offset), (24, 24));
}

#[test]
fn adjust_scroll_moves_the_window_as_little_as_needed() {
    let mut p = picker(100);
    p.selected = 50;
    p.adjust_scroll();
    assert_eq!(p.scroll_offset, 36);
    p.selected = 40;
    p.adjust_scroll();
    assert_eq!(p.scroll_offset, 36);
    p.selected = 3;
    p.adjust_scroll();
    assert_eq!(p.scroll_offset, 3);
}

#[test]
fn pages_move_by_the_rows_shown() {
    let mut p = picker(40);
    p.page_down();
    assert_eq!((p.selected, p.scroll_offset), (15, 1));
    p.page_down();
    p.page_down();
    assert_eq!((p.selected, p.scroll_offset), (39, 25));
    p.page_up();
    assert_eq!((p.selected, p.scroll_offset), (24, 24));
    p.page_up();
    p.page_up();
    assert_eq!((p.selected, p.scroll_offset), (0, 0));
}

#[test]
fn keys_cancel_select_and_move() {
    let mut p = picker(40);
    assert!(matches!(p.handle_key(PickerKey::Esc), PickerAction::Done(PickerResult::Cancelled)));
    assert!(matches!(p.handle_key(PickerKey::Char('q')), PickerAction::Done(PickerResult::Cancelled)));
    assert!(matches!(p.handle_key(PickerKey::Interrupt), PickerAction::Done(PickerResult::Cancelled)));
    assert!(matches!(
        p.handle_key(PickerKey::Tab),
        PickerAction::Done(PickerResult::Selected(ref d)) if d == "/tmp"
    ));
    assert!(matches!(
        p.handle_key(PickerKey::Char(' ')),
        PickerAction::Done(PickerResult::Selected(ref d)) if d == "/tmp"
    ));
    assert!(matches!(p.handle_key(PickerKey::Down), PickerAction::Continue));
    assert!(matches!(p.handle_key(PickerKey::Char('j')), PickerAction::Continue));
    assert_eq!(p.selected, 2);
    p.handle_key(PickerKey::Char('k'));
    p.handle_key(PickerKey::Up);
    p.handle_key(PickerKey::Up);
    assert_eq!(p.selected, 0);
    p.handle_key(PickerKey::End);
    assert_eq!((p.selected, p.scroll_offset), (39, 25));
    p.handle_key(PickerKey::Home);
    assert_eq!((p.selected, p.scroll_offset), (0, 0));
    p.handle_key(PickerKey::Shifted('G'));
    assert_eq!(p.selected, 39);
    p.handle_key(PickerKey::Char('g'));
    assert_eq!(p.selected, 0);
    p.handle_key(PickerKey::PageDown);
    assert_eq!(p.selected, 15);
    p.handle_key(PickerKey::PageUp);
    assert_eq!(p.selected, 0);
    assert!(matches!(p.handle_key(PickerKey::Other), PickerAction::Continue));
    assert!(matches!(p.handle_key(PickerKey::Backspace), PickerAction::GoUp));
    assert!(matches!(p.handle_key(PickerKey::Char('h')), PickerAction::GoUp));
}

#[test]
fn keys_enter_directories_and_filter() {
    let mut p = picker(4);
    p.filter = "e".to_string();
    p.handle_key(PickerKey::Down);
    p.handle_key(PickerKey::Down);
    assert_eq!(p.entries[2].name, "e01");
    assert!(matches!(p.handle_key(PickerKey::Enter), PickerAction::Continue));
    assert_eq!((p.selected, p.current_dir.as_str(), p.filter.as_str()), (2, "/tmp", "e"));
    p.handle_key(PickerKey::Up);
    assert!(matches!(p.handle_key(PickerKey::Char('l')), PickerAction::Enter(ref d) if d == "/tmp/e02"));
    assert_eq!((p.selected, p.scroll_offset), (0, 0));
    assert_eq!(p.current_dir, "/tmp/e02");
    assert_eq!(p.filter, "");
    assert!(matches!(p.handle_key(PickerKey::Char('a')), PickerAction::Reload));
    assert!(matches!(p.handle_key(PickerKey::Shifted('B')), PickerAction::Reload));
    assert!(matches!(p.handle_key(PickerKey::Char('.')), PickerAction::Reload));
    assert!(matches!(p.handle_key(PickerKey::Char('!')), PickerAction::Continue));
    assert_eq!(p.filter, "aB.");
    assert!(matches!(p.handle_key(PickerKey::Char('/')), PickerAction::Continue));
    assert_eq!(p.filter, "");
    p.handle_key(PickerKey::Char('x'));
    assert!(matches!(p.handle_key(PickerKey::Delete), PickerAction::Reload));
    assert_eq!(p.filter, "");
    let mut empty = picker(0);
    assert!(matches!(empty.handle_key(PickerKey::Enter), PickerAction::Continue));
}

#[test]
fn picker_result_holds_the_path() {
    let r = PickerResult::Selected("/tmp".to_string());
    assert!(matches!(r, PickerResult::Selected(ref p) if p == "/tmp"));
    assert!(matches!(PickerResult::Cancelled, PickerResult::Cancelled));
}

#[test]
fn merged_names_are_sorted_and_unique() {
    let a: Vec<String> = ["wellbeing", "health", "mine"].iter().map(|s| s.to_string()).collect();
    let b: Vec<String> = ["default", "mine", "health", "Zed"].iter().map(|s| s.to_string()).collect();
    assert_eq!(merge_names(&a, &b), vec!["Zed", "default", "health", "mine", "wellbeing"]);
    assert!(merge_names(&Vec::new(), &Vec::new()).is_empty());
    assert_eq!(merge_names(&b, &Vec::new()), vec!["Zed", "default", "health", "mine"]);
}

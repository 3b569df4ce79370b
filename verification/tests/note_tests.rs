use deez_notes::note::{next_name_counter, note_file_name, truncate_slug, Note};

#[test]
fn create_new_generates_slug() {
    assert_eq!(note_file_name("My Awesome Note", 0), "my-awesome-note.md");
}

#[test]
fn create_new_avoids_collision() {
    let name1 = note_file_name("Duplicate Title", 0);
    let name2 = note_file_name("Duplicate Title", 1);
    assert_ne!(name1, name2);
    assert_eq!(name1, "duplicate-title.md");
    assert_eq!(name2, "duplicate-title-1.md");
}

#[test]
fn title_from_path_basic() {
    assert_eq!(Note::title_from_path("/notes/hello-world.md"), "Hello world");
    assert_eq!(Note::title_from_path("/notes/my_great_note.md"), "My great note");
    assert_eq!(Note::title_from_path("/notes/simple.md"), "Simple");
}

#[test]
fn create_new_path_traversal_in_title() {
    let filename = note_file_name("../../../etc/passwd", 0);
    assert!(!filename.contains(".."));
    assert!(!filename.contains('/'));
}

#[test]
fn create_new_special_characters_in_title() {
    let filename = note_file_name(r#"Test ? | \ " < > * : note"#, 0);
    assert!(!filename.contains('?'));
    assert!(!filename.contains('|'));
    assert!(!filename.contains('\\'));
    assert!(!filename.contains('"'));
    assert!(!filename.contains('<'));
    assert!(!filename.contains('>'));
    assert!(!filename.contains('*'));
    assert!(!filename.contains(':'));
}

#[test]
fn create_new_unicode_emoji_in_title() {
    let filename = note_file_name("\u{1F4DD} Ma note g\u{00E9}niale", 0);
    assert!(filename.ends_with(".md"));
}

#[test]
fn create_new_very_long_title() {
    let long_title = "A".repeat(500);
    let filename = note_file_name(&long_title, 0);
    assert!(filename.ends_with(".md"));
    assert_eq!(filename.len(), 200 + ".md".len());
}

#[test]
fn create_new_empty_title() {
    let filename = note_file_name("", 0);
    assert!(filename.ends_with(".md"));
}

#[test]
fn create_new_five_notes_same_title_all_unique() {
    let filenames: Vec<String> = (0..5).map(|c| note_file_name("Same Title", c)).collect();
    for (i, a) in filenames.iter().enumerate() {
        for b in &filenames[i + 1..] {
            assert_ne!(a, b, "names should be unique");
        }
    }
    assert!(filenames.contains(&"same-title.md".to_string()));
    assert!(filenames.contains(&"same-title-1.md".to_string()));
    assert!(filenames.contains(&"same-title-2.md".to_string()));
    assert!(filenames.contains(&"same-title-3.md".to_string()));
    assert!(filenames.contains(&"same-title-4.md".to_string()));
}

#[test]
fn truncate_slug_cuts_at_last_dash() {
    assert_eq!(truncate_slug("abc-def-ghi", 9), "abc-def");
    assert_eq!(truncate_slug("abcdefghij", 5), "abcde");
    assert_eq!(truncate_slug("short", 10), "short");
}

#[test]
fn name_search_moves_on_only_past_other_files() {
    assert_eq!(next_name_counter(true, false, 0), Some(1));
    assert_eq!(next_name_counter(true, false, 7), Some(8));
    assert_eq!(next_name_counter(false, false, 3), None);
    // The note's own current file is not a collision.
    assert_eq!(next_name_counter(true, true, 2), None);
}

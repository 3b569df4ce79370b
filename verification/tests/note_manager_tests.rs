use deez_notes::note::{Note, Timestamp};
use deez_notes::note_manager::NoteManager;

const DIR: &str = "/notes";

fn note_at(path: &str, title: &str) -> Note {
    let t = Timestamp { secs: 1_735_689_600, nanos: 0 };
    Note {
        path: path.to_string(),
        title: title.to_string(),
        content: None,
        tags: Vec::new(),
        created: t,
        modified: t,
    }
}

fn manager(notes: Vec<Note>, folders: &[&str]) -> NoteManager {
    let mut m = NoteManager::new(DIR.to_string());
    m.set_scan_results(notes, folders.iter().map(|f| f.to_string()).collect(), Vec::new());
    m
}

#[test]
fn delete_note_out_of_bounds() {
    let mgr = manager(Vec::new(), &[]);
    let result = mgr.check_index(0);
    assert!(result.is_err());
    assert!(result.unwrap_err().contains("out of bounds"));
}

#[test]
fn scan_finds_nested_subfolders() {
    let mgr = manager(vec![note_at("/notes/a/b/deep.md", "Deep")], &["a/b", "a"]);
    assert_eq!(mgr.notes().len(), 1);
    assert!(mgr.folders.contains(&"a".to_string()));
    assert!(mgr.folders.contains(&"a/b".to_string()));
    // Folders are kept sorted.
    assert_eq!(mgr.folders, vec!["a".to_string(), "a/b".to_string()]);
}

#[test]
fn subfolders_of_root() {
    let mgr = manager(Vec::new(), &["work", "personal", "work/projects"]);

    let root_subs = mgr.subfolders_of("");
    assert_eq!(root_subs, vec!["personal", "work"]);

    let work_subs = mgr.subfolders_of("work");
    assert_eq!(work_subs, vec!["projects"]);
}

#[test]
fn notes_in_folder_filters_correctly() {
    let mgr = manager(
        vec![note_at("/notes/root.md", "Root"), note_at("/notes/work/task.md", "Task")],
        &["work"],
    );

    let root_notes = mgr.notes_in_folder("");
    assert_eq!(root_notes.len(), 1);

    let work_notes = mgr.notes_in_folder("work");
    assert_eq!(work_notes.len(), 1);
    assert_eq!(work_notes, vec![1]);
}

#[test]
fn create_folder_creates_dir() {
    let mut mgr = manager(Vec::new(), &["zeta"]);
    mgr.add_folder("projects".to_string());
    assert!(mgr.folders.contains(&"projects".to_string()));
    assert_eq!(mgr.folders, vec!["projects".to_string(), "zeta".to_string()]);
}

#[test]
fn delete_folder_removes_empty_dir() {
    let mut mgr = manager(Vec::new(), &["old", "keep"]);
    mgr.remove_folder("old");
    assert_eq!(mgr.folders, vec!["keep".to_string()]);
}

#[test]
fn move_note_same_folder_noop() {
    let mgr = manager(vec![note_at("/notes/stay.md", "Stay")], &[]);
    let dest = mgr.move_destination(0, "").unwrap();
    assert_eq!(std::path::Path::new(&dest), std::path::Path::new("/notes/stay.md"));
}

#[test]
fn move_note_to_subfolder() {
    let mgr = manager(vec![note_at("/notes/mover.md", "Mover")], &["archive"]);
    let dest = mgr.move_destination(0, "archive").unwrap();
    assert_eq!(dest, "/notes/archive/mover.md");
}

#[test]
fn all_folder_paths_includes_root() {
    let mgr = manager(Vec::new(), &["b", "a"]);
    let paths = mgr.all_folder_paths();
    assert_eq!(paths[0], ""); // root first
    assert!(paths.contains(&"a".to_string()));
    assert!(paths.contains(&"b".to_string()));
}

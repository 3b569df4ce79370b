use deez_notes::cli;
use deez_notes::note::{Note, Timestamp};
use deez_notes::note_manager::NoteManager;

const DIR: &str = "/notes";

/// A note as the scan reads it from `<DIR>/<rel>`.
fn md(rel: &str, title: &str, tags: &[&str], body: &str) -> Note {
    let t = Timestamp { secs: 1_735_689_600, nanos: 0 };
    Note {
        path: format!("{DIR}/{rel}"),
        title: title.to_string(),
        content: Some(body.to_string()),
        tags: tags.iter().map(|s| s.to_string()).collect(),
        created: t,
        modified: t,
    }
}

fn manager_with(notes: Vec<Note>, folders: &[&str]) -> NoteManager {
    let mut m = NoteManager::new(DIR.to_string());
    m.set_scan_results(notes, folders.iter().map(|f| f.to_string()).collect(), Vec::new());
    m
}

#[test]
fn list_human_outputs_tab_separated_path_and_title() {
    let m = manager_with(vec![md("alpha.md", "Alpha", &[], "body")], &[]);

    let out = cli::format_notes(&m, &cli::list(&m, None, None));

    assert_eq!(out, "alpha.md\tAlpha");
}

#[test]
fn list_filters_by_folder_and_tag() {
    let m = manager_with(
        vec![
            md("root.md", "Root", &["home"], "b"),
            md("work/task.md", "Task", &["urgent"], "b"),
            md("work/idea.md", "Idea", &["home"], "b"),
        ],
        &["work"],
    );

    // Folder filter: exact folder, non-recursive.
    let work = cli::format_notes(&m, &cli::list(&m, Some("work"), None));
    assert!(work.contains("work/task.md"), "got: {work}");
    assert!(work.contains("work/idea.md"), "got: {work}");
    assert!(!work.contains("root.md"), "got: {work}");

    // Folder + tag.
    let urgent = cli::format_notes(&m, &cli::list(&m, Some("work"), Some("urgent")));
    assert_eq!(urgent, "work/task.md\tTask");
}

#[test]
fn search_finds_by_fuzzy_title() {
    let m = manager_with(vec![md("alpha.md", "Alpha", &[], "b"), md("beta.md", "Beta", &[], "b")], &[]);

    let out = cli::format_notes(&m, &cli::search(&m, "alph"));

    assert!(out.contains("alpha.md\tAlpha"), "got: {out}");
    assert!(!out.contains("beta.md"), "got: {out}");
}

#[test]
fn resolve_note_prefers_exact_path_then_fuzzy() {
    let m = manager_with(vec![md("alpha.md", "Alpha", &[], "b"), md("beta.md", "Beta Notes", &[], "b")], &[]);

    let by_path = cli::resolve_note(&m, "beta.md").unwrap();
    assert_eq!(cli::relative_path(&m, &m.notes()[by_path]), "beta.md");

    let by_title = cli::resolve_note(&m, "beta notes").unwrap();
    assert_eq!(cli::relative_path(&m, &m.notes()[by_title]), "beta.md");

    assert!(cli::resolve_note(&m, "zzz-nope").is_err());
    assert_eq!(cli::resolve_note(&m, "zzz-nope").unwrap_err(), "no note matches 'zzz-nope'");
}

#[test]
fn list_tag_filter_is_exact() {
    let m = manager_with(vec![md("a.md", "A", &["Rust"], ""), md("b.md", "B", &["rust"], "")], &[]);
    assert_eq!(cli::list(&m, None, Some("rust")), vec![1]);
    assert_eq!(cli::format_notes(&m, &[0, 1]), "a.md\tA\nb.md\tB");
}

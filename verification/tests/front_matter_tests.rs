use deez_notes::front_matter::{front_matter_parts, note_text};
use deez_notes::markdown::preserve_leading_whitespace;

#[test]
fn front_matter_and_body_are_split() {
    let text = "---\ntitle: A\ntags: [x]\n---\n\nBody line.";
    let (matter, body) = front_matter_parts(text).expect("front matter");
    assert_eq!(matter, "title: A\ntags: [x]");
    assert_eq!(body, "Body line.");
}

#[test]
fn text_without_front_matter_has_none() {
    assert!(front_matter_parts("Just a body.").is_none());
    assert!(front_matter_parts("").is_none());
}

#[test]
fn empty_front_matter_block_counts_as_none() {
    assert!(front_matter_parts("---\n---\nBody").is_none());
}

#[test]
fn note_text_frames_the_yaml() {
    assert_eq!(note_text("title: A\n", "Body"), "---\ntitle: A\n---\n\nBody");
    assert_eq!(note_text("title: A \t\n\n", ""), "---\ntitle: A\n---\n\n");
}

#[test]
fn note_text_round_trips_through_the_parts() {
    let text = note_text("title: Round\ntags:\n- a\n", "The body.");
    let (matter, body) = front_matter_parts(&text).expect("front matter");
    assert_eq!(matter, "title: Round\ntags:\n- a");
    assert_eq!(body, "The body.");
}

#[test]
fn leading_blank_lines_are_kept() {
    assert_eq!(preserve_leading_whitespace("\nx"), "\nx");
    assert_eq!(preserve_leading_whitespace("\n\n  y"), "\n\n\u{a0}\u{a0}y");
    assert_eq!(preserve_leading_whitespace("\ta\n b"), "\u{a0}\u{a0}\u{a0}\u{a0}a\n\u{a0}b");
}

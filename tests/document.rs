use notepad::document::{title_from, title_of_path, SaveTarget, Tab};
use notepad::text::{line_label_count, line_labels};

#[test]
fn blank_document() {
    let t = Tab::new();
    assert_eq!(t.title(), "Untitled");
    assert_eq!(t.content(), "");
    assert_eq!(t.file_path(), None);
    assert!(!t.is_modified());
    assert_eq!(t.label(), "Untitled");
}

#[test]
fn save_then_load_gives_back_the_text() {
    let mut t = Tab::loaded("/home/u/a.txt".to_string(), "old".to_string());
    t.edit("new text\nline two".to_string());
    let path = match t.save() {
        SaveTarget::Write(p) => p,
        SaveTarget::NoPath => panic!("document has a file"),
    };
    assert_eq!(path, "/home/u/a.txt");
    let on_disk = t.content().to_string();
    assert!(t.finish_save(path.clone(), true));
    let mut other = Tab::new();
    assert!(other.load(path, Some(on_disk)));
    assert_eq!(other.content(), "new text\nline two");
    assert_eq!(other.content(), t.content());
    assert_eq!(other.title(), "a.txt");
}

#[test]
fn modified_flag_follows_edits_saves_and_loads() {
    let mut t = Tab::new();
    assert!(!t.is_modified());
    t.edit("a".to_string());
    assert!(t.is_modified());
    assert_eq!(t.label(), "Untitled *");
    assert!(t.finish_save("/x/y.txt".to_string(), true));
    assert!(!t.is_modified());
    assert_eq!(t.label(), "y.txt");
    t.edit("b".to_string());
    assert!(t.is_modified());
    assert!(t.load("/x/z.txt".to_string(), Some("zz".to_string())));
    assert!(!t.is_modified());
    assert_eq!(t.content(), "zz");
    assert_eq!(t.file_path(), Some("/x/z.txt"));
}

#[test]
fn save_without_path_reports_no_path() {
    let mut t = Tab::new();
    t.edit("unsaved".to_string());
    assert!(matches!(t.save(), SaveTarget::NoPath));
    assert!(t.is_modified());
    assert_eq!(t.file_path(), None);
}

#[test]
fn failed_write_keeps_modified() {
    let mut t = Tab::loaded("/p/q.txt".to_string(), "q".to_string());
    t.edit("r".to_string());
    assert!(!t.finish_save("/p/other.txt".to_string(), false));
    assert!(t.is_modified());
    assert_eq!(t.file_path(), Some("/p/q.txt"));
    assert_eq!(t.title(), "q.txt");
}

#[test]
fn failed_load_keeps_state() {
    let mut t = Tab::new();
    t.edit("kept".to_string());
    assert!(!t.load("/nope.txt".to_string(), None));
    assert_eq!(t.content(), "kept");
    assert!(t.is_modified());
    assert_eq!(t.file_path(), None);
}

#[test]
fn title_is_final_path_component() {
    assert_eq!(title_of_path("/home/user/notes.txt"), "notes.txt");
    assert_eq!(title_of_path("relative/dir/file.rs"), "file.rs");
    assert_eq!(title_of_path("plain"), "plain");
}

#[test]
fn title_without_final_component_is_the_path() {
    assert_eq!(title_of_path("/"), "/");
    assert_eq!(title_of_path("a/.."), "a/..");
}

#[test]
fn title_from_given_name() {
    assert_eq!(title_from("/a/b.txt", Some("b.txt".to_string())), "b.txt");
    assert_eq!(title_from("/a/..", None), "/a/..");
}

#[test]
fn label_count_of_three_lines() {
    assert_eq!(line_label_count("a\nb\nc"), 3);
}

#[test]
fn label_count_of_empty_text_is_one() {
    assert_eq!(line_label_count(""), 1);
}

#[test]
fn label_count_edge_cases() {
    assert_eq!(line_label_count("a"), 1);
    assert_eq!(line_label_count("a\n"), 1);
    assert_eq!(line_label_count("\n"), 1);
    assert_eq!(line_label_count("\n\n"), 2);
    assert_eq!(line_label_count("a\n\nb"), 3);
    assert_eq!(line_label_count("é\nü"), 2);
}

#[test]
fn labels_are_sequential_from_one() {
    assert_eq!(line_labels("a\nb\nc"), vec![1, 2, 3]);
    assert_eq!(line_labels(""), vec![1]);
}

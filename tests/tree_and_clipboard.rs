use std::cmp::Ordering;
use warp_code::clipboard::{ClipboardError, PathClipboard};
use warp_code::file_tree::{compare_nodes, directory_node, file_node, sort_nodes, FileNode};
use warp_code::session::{SessionError, TerminalState};

fn names(v: &[FileNode]) -> Vec<String> {
    v.iter().map(|n| n.name.clone()).collect()
}

fn dir(name: &str) -> FileNode {
    directory_node(name.to_string(), format!("/r/{}", name), Vec::new())
}

fn file(name: &str) -> FileNode {
    file_node(name.to_string(), format!("/r/{}", name))
}

#[test]
fn directories_list_before_files() {
    let v = vec![file("a.txt"), dir("src"), file("Cargo.toml"), dir("assets")];
    let s = sort_nodes(v);
    assert_eq!(names(&s), vec!["assets", "src", "Cargo.toml", "a.txt"]);
}

#[test]
fn names_compare_by_code_point() {
    let v = vec![file("b"), file("ab"), file("a"), file("B"), file("é")];
    let s = sort_nodes(v);
    assert_eq!(names(&s), vec!["B", "a", "ab", "b", "é"]);
    assert_eq!(compare_nodes(&file("a"), &file("a")), Ordering::Equal);
    assert_eq!(compare_nodes(&dir("z"), &file("a")), Ordering::Less);
    assert_eq!(compare_nodes(&file("a"), &dir("z")), Ordering::Greater);
}

#[test]
fn directory_node_sorts_children() {
    let d = directory_node("r".into(), "/r".into(), vec![file("x"), dir("y")]);
    assert!(d.is_dir);
    assert_eq!(names(d.children.as_ref().unwrap()), vec!["y", "x"]);
    let f = file("x");
    assert!(!f.is_dir);
    assert!(f.children.is_none());
    assert!(sort_nodes(Vec::new()).is_empty());
}

#[test]
fn paste_from_empty_clipboard_fails() {
    let c = PathClipboard::new();
    assert_eq!(c.pending().unwrap_err(), ClipboardError::Empty);
    assert_eq!(ClipboardError::Empty.message(), "Nothing in clipboard");
}

#[test]
fn copied_path_stays_after_paste() {
    let mut c = PathClipboard::new();
    c.copy_path("/r/a".into(), false);
    assert_eq!(c.pending().unwrap(), ("/r/a".to_string(), false));
    c.paste_done();
    assert_eq!(c.pending().unwrap(), ("/r/a".to_string(), false));
}

#[test]
fn cut_path_leaves_after_paste() {
    let mut c = PathClipboard::new();
    c.copy_path("/r/a".into(), false);
    c.copy_path("/r/b".into(), true);
    assert_eq!(c.pending().unwrap(), ("/r/b".to_string(), true));
    c.paste_done();
    assert!(c.pending().is_err());
}

#[test]
fn session_errors_have_messages() {
    assert_eq!(SessionError::NotFound.message(), "Terminal session not found");
    assert_eq!(
        SessionError::SpawnError("boom".into()).message(),
        "Failed to spawn shell: boom"
    );
    assert_eq!(SessionError::SessionClosed.message(), "Terminal session has ended");
    assert_eq!(SessionError::DuplicateId.message(), "Terminal session already registered");
}

#[test]
fn default_table_is_empty() {
    let t = TerminalState::default();
    assert_eq!(t.len(), 0);
    assert!(!t.contains(1));
}

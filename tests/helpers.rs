use warp_code::projects::ProjectConfig;
use warp_code::search::{
    classify_search_exit, collect_matches, search_record, SearchExit, SearchMatch,
};
use warp_code::shell::{default_shell_candidates, select_shell, ShellCandidate};
use warp_code::window_management::{editor_url, editor_window_label, sanitize_label};

#[test]
fn shell_override_wins() {
    let c = default_shell_candidates(true, true);
    assert_eq!(select_shell(Some("/usr/bin/fish".to_string()), false, &c), Some("/usr/bin/fish".to_string()));
}

#[test]
fn windows_uses_command_shell() {
    let c = default_shell_candidates(true, true);
    assert_eq!(select_shell(None, true, &c), Some("cmd".to_string()));
}

#[test]
fn zsh_preferred_when_present() {
    let c = default_shell_candidates(true, true);
    assert_eq!(select_shell(None, false, &c), Some("/bin/zsh".to_string()));
}

#[test]
fn bash_when_zsh_absent() {
    let c = default_shell_candidates(false, true);
    assert_eq!(select_shell(None, false, &c), Some("/bin/bash".to_string()));
    let c = default_shell_candidates(false, false);
    assert_eq!(select_shell(None, false, &c), Some("/bin/bash".to_string()));
}

#[test]
fn no_candidates_no_shell() {
    assert_eq!(select_shell(None, false, &Vec::new()), None);
    let c = vec![
        ShellCandidate { path: "/opt/a".to_string(), present: false },
        ShellCandidate { path: "/opt/b".to_string(), present: true },
        ShellCandidate { path: "/opt/c".to_string(), present: true },
    ];
    assert_eq!(select_shell(None, false, &c), Some("/opt/b".to_string()));
}

#[test]
fn label_replaces_disallowed_characters() {
    assert_eq!(sanitize_label("/home/me/my proj.v2"), "/home/me/my_proj_v2");
    assert_eq!(sanitize_label("C:/x-y_z"), "C:/x-y_z");
    assert_eq!(sanitize_label("café€"), "café_");
    assert_eq!(sanitize_label(""), "");
}

#[test]
fn editor_label_has_prefix() {
    assert_eq!(editor_window_label("/tmp/a b"), "editor_/tmp/a_b");
}

#[test]
fn editor_url_is_percent_encoded() {
    assert_eq!(
        editor_url("/home/me/my proj~1.x"),
        "index.html#/editor?path=%2Fhome%2Fme%2Fmy%20proj~1.x"
    );
    assert_eq!(editor_url("é"), "index.html#/editor?path=%C3%A9");
}

fn paths(c: &ProjectConfig) -> Vec<String> {
    c.recent_projects.iter().map(|p| p.path.clone()).collect()
}

#[test]
fn adding_project_puts_it_first_without_duplicates() {
    let mut c = ProjectConfig::new();
    c.add_recent_project("a".into(), "/p/a".into(), "react".into(), 100);
    c.add_recent_project("b".into(), "/p/b".into(), "vue".into(), 200);
    c.add_recent_project("a".into(), "/p/a".into(), "unknown".into(), 300);
    assert_eq!(paths(&c), vec!["/p/a".to_string(), "/p/b".to_string()]);
    assert_eq!(c.recent_projects[0].last_opened, 300);
    assert_eq!(c.recent_projects[0].template, "unknown");
}

#[test]
fn recent_list_is_capped_at_ten() {
    let mut c = ProjectConfig::new();
    for k in 0..12i64 {
        c.add_recent_project(format!("n{}", k), format!("/p/{}", k), "t".into(), k);
    }
    assert_eq!(c.recent_projects.len(), 10);
    assert_eq!(c.recent_projects[0].path, "/p/11");
    assert_eq!(c.recent_projects[9].path, "/p/2");
}

#[test]
fn removing_project_keeps_order() {
    let mut c = ProjectConfig::new();
    c.add_recent_project("a".into(), "/p/a".into(), "t".into(), 1);
    c.add_recent_project("b".into(), "/p/b".into(), "t".into(), 2);
    c.add_recent_project("c".into(), "/p/c".into(), "t".into(), 3);
    c.remove_recent_project("/p/b".to_string());
    assert_eq!(paths(&c), vec!["/p/c".to_string(), "/p/a".to_string()]);
    c.remove_recent_project("/p/zzz".to_string());
    assert_eq!(c.recent_projects.len(), 2);
}

#[test]
fn search_exit_classification() {
    assert_eq!(classify_search_exit(true, Some(0)), SearchExit::Records);
    assert_eq!(classify_search_exit(false, Some(1)), SearchExit::NoMatches);
    assert_eq!(classify_search_exit(false, Some(2)), SearchExit::Failed);
    assert_eq!(classify_search_exit(false, None), SearchExit::Failed);
}

#[test]
fn incomplete_submatches_are_dropped() {
    let b = vec![(Some(3), Some(7)), (None, Some(2)), (Some(9), None), (Some(10), Some(12))];
    assert_eq!(
        collect_matches(&b),
        vec![SearchMatch { start: 3, end: 7 }, SearchMatch { start: 10, end: 12 }]
    );
}

#[test]
fn only_match_records_give_results() {
    let b = vec![(Some(0), Some(3))];
    assert!(search_record("begin", Some("a.rs".into()), Some(1), Some("x".into()), &b).is_none());
    let r = search_record("match", Some("a.rs".into()), Some(12), Some("foo bar".into()), &b).unwrap();
    assert_eq!(r.path, "a.rs");
    assert_eq!(r.line, 12);
    assert_eq!(r.content, "foo bar");
    assert_eq!(r.matches, vec![SearchMatch { start: 0, end: 3 }]);
    let d = search_record("match", None, None, None, &Vec::new()).unwrap();
    assert_eq!(d.path, "");
    assert_eq!(d.line, 0);
    assert!(d.matches.is_empty());
}

use session_supervisor::error::AppError;
use session_supervisor::explorer::{
    check_path, contains_text, content_fits, is_log_extension, keeps_searching, name_or_unknown,
    order_listing, parse_query, place_for, push_unique, read_logs, skips, stands_before,
    validate_workspace_path, DirectoryInfo, FileInfo, FileMatch, PathUse, SearchQuery,
};

fn file(name: &str, is_dir: bool) -> FileInfo {
    FileInfo {
        name: name.to_string(),
        path: format!("/w/{}", name),
        is_dir,
        size: if is_dir { None } else { Some(3) },
        modified: None,
        extension: None,
        children: None,
    }
}

fn names(files: &[FileInfo]) -> Vec<String> {
    files.iter().map(|f| f.name.clone()).collect()
}

#[test]
fn listing_has_directories_first_then_names() {
    let files = vec![
        file("zeta.txt", false),
        file("src", true),
        file("Alpha.md", false),
        file("alpha.md", false),
        file("docs", true),
        file("a", false),
        file("ab", false),
        file("", false),
        file("éclair", false),
        file("Zoo", true),
    ];
    let ordered = order_listing(files);
    assert_eq!(
        names(&ordered),
        vec!["Zoo", "docs", "src", "", "Alpha.md", "a", "ab", "alpha.md", "zeta.txt", "éclair"]
    );
    assert_eq!(order_listing(vec![]), vec![]);
}

#[test]
fn listing_order_is_what_std_gives() {
    let mut files = Vec::new();
    let mut expected = Vec::new();
    let mut seed: u32 = 7;
    for _ in 0..60 {
        seed = seed.wrapping_mul(1103515245).wrapping_add(12345);
        let name = format!("{}{}", ["b", "a", "B", "é", ""][(seed >> 8) as usize % 5], seed >> 20);
        let is_dir = (seed >> 4) % 3 == 0;
        files.push(file(&name, is_dir));
        expected.push(file(&name, is_dir));
    }
    expected.sort_by(|a, b| match (a.is_dir, b.is_dir) {
        (true, false) => std::cmp::Ordering::Less,
        (false, true) => std::cmp::Ordering::Greater,
        _ => a.name.cmp(&b.name),
    });
    assert_eq!(order_listing(files), expected);
}

#[test]
fn order_of_two_entries() {
    assert!(stands_before(&file("z", true), &file("a", false)));
    assert!(!stands_before(&file("a", false), &file("z", true)));
    assert!(stands_before(&file("a", false), &file("a", false)));
    assert!(stands_before(&file("a", false), &file("ab", false)));
    assert!(!stands_before(&file("b", false), &file("ab", false)));
    let ordered = vec![file("d", true), file("a", false), file("c", false)];
    assert_eq!(place_for(&ordered, &file("b", false)), 2);
    assert_eq!(place_for(&ordered, &file("a", false)), 2);
    assert_eq!(place_for(&ordered, &file("a", true)), 0);
    assert_eq!(place_for(&ordered, &file("z", false)), 3);
}

#[test]
fn queries() {
    assert_eq!(
        parse_query("src/util/main"),
        SearchQuery {
            name: "main".to_string(),
            path_filters: vec!["src".to_string(), "util".to_string()]
        }
    );
    assert_eq!(parse_query("main"), SearchQuery { name: "main".to_string(), path_filters: vec![] });
    assert_eq!(parse_query(""), SearchQuery { name: "".to_string(), path_filters: vec![] });
    assert_eq!(
        parse_query("/a//"),
        SearchQuery {
            name: "".to_string(),
            path_filters: vec!["".to_string(), "a".to_string(), "".to_string()]
        }
    );
    for query in ["", "a", "a/b", "/", "a//b/", "x/y/z/w"] {
        let parts: Vec<String> = query.split('/').map(|s| s.to_string()).collect();
        let parsed = parse_query(query);
        assert_eq!(Some(&parsed.name), parts.last());
        assert_eq!(parsed.path_filters[..], parts[..parts.len() - 1]);
    }
}

#[test]
fn text_in_text() {
    assert!(contains_text("main.rs", "main"));
    assert!(contains_text("main.rs", ".rs"));
    assert!(contains_text("main.rs", "n.r"));
    assert!(contains_text("main.rs", ""));
    assert!(contains_text("", ""));
    assert!(contains_text("main.rs", "main.rs"));
    assert!(!contains_text("main.rs", "main.rss"));
    assert!(!contains_text("main.rs", "x"));
    assert!(!contains_text("", "x"));
    assert!(contains_text("aab", "ab"));
    assert!(contains_text("héllo", "él"));
}

#[test]
fn reported_files() {
    let query = parse_query("src/ma");
    assert!(query.reports("main.rs", "src/main.rs", false));
    assert!(!query.reports("main.rs", "src/main.rs", true));
    assert!(!query.reports("lib.rs", "src/lib.rs", false));
    assert!(!query.reports("main.rs", "app/main.rs", false));
    let plain = parse_query("");
    assert!(plain.reports("anything", "a/anything", false));
    let two = parse_query("a/b/x");
    assert!(two.reports("x.txt", "a/b/x.txt", false));
    assert!(two.reports("x.txt", "b/a/x.txt", false));
    assert!(!two.reports("x.txt", "a/c/x.txt", false));
}

#[test]
fn skipped_names() {
    assert!(skips(".git"));
    assert!(skips("."));
    assert!(skips("node_modules"));
    assert!(skips("target"));
    assert!(!skips("targets"));
    assert!(!skips("src"));
    assert!(!skips(""));
    assert!(!skips("a.b"));
}

#[test]
fn limits() {
    assert!(keeps_searching(0, 20, 0));
    assert!(keeps_searching(19, 20, 5));
    assert!(!keeps_searching(20, 20, 0));
    assert!(!keeps_searching(0, 20, 6));
    assert!(!keeps_searching(0, 0, 0));
    assert!(content_fits(0));
    assert!(content_fits(1024 * 1024));
    assert!(!content_fits(1024 * 1024 + 1));
}

#[test]
fn entries_of_a_listing() {
    let dir = FileInfo::entry(
        Some("src".to_string()),
        "/w/src".to_string(),
        true,
        4096,
        Some("170".to_string()),
        Some("d".to_string()),
    );
    assert_eq!(dir.name, "src");
    assert_eq!(dir.size, None);
    assert_eq!(dir.extension, None);
    assert_eq!(dir.modified, Some("170".to_string()));
    assert_eq!(dir.children, None);
    assert!(dir.is_dir);
    let plain = FileInfo::entry(None, "/w/x".to_string(), false, 12, None, Some("rs".to_string()));
    assert_eq!(plain.name, "Unknown");
    assert_eq!(plain.path, "/w/x");
    assert_eq!(plain.size, Some(12));
    assert_eq!(plain.extension, Some("rs".to_string()));
    assert!(!plain.is_dir);
    assert_eq!(name_or_unknown(Some("n".to_string())), "n");
}

#[test]
fn found_files_and_directories() {
    let found = FileMatch::file(
        "a.rs".to_string(),
        "src/a.rs".to_string(),
        "/w/src/a.rs".to_string(),
        Some("rs".to_string()),
    );
    assert_eq!(
        found,
        FileMatch {
            name: "a.rs".to_string(),
            relative_path: "src/a.rs".to_string(),
            full_path: "/w/src/a.rs".to_string(),
            is_dir: false,
            extension: Some("rs".to_string()),
        }
    );
    assert_eq!(
        DirectoryInfo::new(None, "/".to_string(), true),
        DirectoryInfo { name: "Unknown".to_string(), path: "/".to_string(), has_git: true }
    );
    assert_eq!(DirectoryInfo::new(Some("w".to_string()), "/w".to_string(), false).name, "w");
}

#[test]
fn unique_paths_and_log_files() {
    let mut paths = Vec::new();
    assert!(push_unique(&mut paths, "/a".to_string()));
    assert!(push_unique(&mut paths, "/b".to_string()));
    assert!(!push_unique(&mut paths, "/a".to_string()));
    assert_eq!(paths, vec!["/a".to_string(), "/b".to_string()]);
    assert!(is_log_extension("log"));
    assert!(is_log_extension("gz"));
    assert!(!is_log_extension("txt"));
    assert!(!is_log_extension(""));
}

fn invalid(message: &str) -> Result<(), AppError> {
    Err(AppError::InvalidPath(message.to_string()))
}

#[test]
fn path_checks() {
    assert_eq!(check_path(PathUse::List, true, true, 0), Ok(()));
    assert_eq!(check_path(PathUse::List, false, false, 0), invalid("路径不存在"));
    assert_eq!(check_path(PathUse::List, true, false, 0), invalid("不是目录"));
    assert_eq!(check_path(PathUse::Read, true, false, 1024 * 1024), Ok(()));
    assert_eq!(check_path(PathUse::Read, false, false, 0), invalid("文件不存在"));
    assert_eq!(check_path(PathUse::Read, true, true, 0), invalid("是目录，不是文件"));
    assert_eq!(
        check_path(PathUse::Read, true, false, 1024 * 1024 + 1),
        invalid("文件过大，超过1MB限制")
    );
    assert_eq!(check_path(PathUse::Change, true, false, 0), Ok(()));
    assert_eq!(check_path(PathUse::Change, true, true, 0), Ok(()));
    assert_eq!(check_path(PathUse::Change, false, false, 0), invalid("路径不存在"));
    assert_eq!(check_path(PathUse::Describe, true, true, 0), Ok(()));
    assert_eq!(check_path(PathUse::Describe, true, false, 0), invalid("路径不存在或不是目录"));
    assert_eq!(check_path(PathUse::Describe, false, false, 0), invalid("路径不存在或不是目录"));
    assert!(validate_workspace_path(true, true));
    assert!(!validate_workspace_path(true, false));
    assert!(!validate_workspace_path(false, false));
}

#[test]
fn shown_logs() {
    assert_eq!(read_logs(&None, 10), "暂无日志");
    assert_eq!(read_logs(&Some("a\nb\nc\n".to_string()), 2), "b\nc");
    assert_eq!(read_logs(&Some(String::new()), 2), "");
}

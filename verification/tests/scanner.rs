//! The apt source scanner: the source-line grammar, the enabled flag, the
//! scan count and the flattened, ordered repository list.
use sysdash::apt::is_source_line;
use sysdash::apt::line_enabled;
use sysdash::apt::AptRepositories;
use sysdash::apt::SourceFile;

fn file(path: &str, lines: &[&str]) -> SourceFile {
    SourceFile {
        path: path.to_string(),
        lines: lines.iter().map(|l| l.to_string()).collect(),
    }
}

#[test]
fn source_line_grammar() {
    assert!(is_source_line("deb http://a"));
    assert!(is_source_line("# deb http://b"));
    assert!(is_source_line("   deb http://c"));
    assert!(is_source_line("### deb http://d"));
    assert!(is_source_line("\t#\tdeb http://e"));
    // The grammar asks only for the prefix `deb`.
    assert!(is_source_line("debian-anything"));
    assert!(!is_source_line("not a source line"));
    assert!(!is_source_line(""));
    assert!(!is_source_line("#"));
    assert!(!is_source_line("de b"));
    assert!(!is_source_line("xdeb"));
    // A second run of hashes after whitespace is not part of the grammar.
    assert!(!is_source_line("# # deb"));
}

#[test]
fn enabled_means_not_commented() {
    assert!(line_enabled("deb http://a"));
    assert!(line_enabled(""));
    assert!(line_enabled(" # deb")); // leading space: not a comment marker
    assert!(!line_enabled("# deb http://b"));
    assert!(!line_enabled("#deb"));
}

#[test]
fn scan_counts_and_lists_in_file_then_line_order() {
    let mut repos = AptRepositories::new();
    assert!(!repos.initialized);
    let files = vec![file(
        "sources.list.d/test.list",
        &["deb http://a", "# deb http://b", "not a source line"],
    )];
    let count = repos.load_from_files(&files);
    assert_eq!(count, 2);
    assert!(repos.initialized);
    assert_eq!(
        repos.get_repository_list(),
        vec!["deb http://a".to_string(), "# deb http://b".to_string()]
    );
    // The commented entry is recorded as disabled.
    assert!(repos.items[0].sources[0]._enabled);
    assert!(!repos.items[0].sources[1]._enabled);
}

#[test]
fn scan_flattens_several_files_in_hand_in_order() {
    let mut repos = AptRepositories::new();
    let files = vec![
        file("one.list", &["deb one", "junk"]),
        file("two.list", &[]),
        file("three.list", &["# deb three-a", "deb three-b"]),
    ];
    let count = repos.load_from_files(&files);
    assert_eq!(count, 3);
    assert_eq!(
        repos.get_repository_list(),
        vec!["deb one".to_string(), "# deb three-a".to_string(), "deb three-b".to_string()]
    );
    assert_eq!(repos.items.len(), 3);
    assert_eq!(repos.items[1].sources.len(), 0);
    assert_eq!(repos.items[2].file_path, "three.list");
    assert_eq!(repos.source_count(), 3);
}

#[test]
fn empty_scan_initializes_with_nothing() {
    let mut repos = AptRepositories::new();
    let count = repos.load_from_files(&vec![]);
    assert_eq!(count, 0);
    assert!(repos.initialized);
    assert_eq!(repos.get_repository_list(), Vec::<String>::new());
    assert_eq!(repos.source_count(), 0);
}

#[test]
fn loading_again_appends() {
    let mut repos = AptRepositories::new();
    repos.load_from_files(&vec![file("a.list", &["deb a"])]);
    repos.load_from_files(&vec![file("b.list", &["deb b"])]);
    assert_eq!(repos.get_repository_list(), vec!["deb a".to_string(), "deb b".to_string()]);
}

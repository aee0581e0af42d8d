use artifact_sweep::log::{render_log, LOG_FILE_NAME};

#[test]
fn log_file_has_its_fixed_name() {
    assert_eq!(LOG_FILE_NAME, "deleted_dirs_log.txt");
}

#[test]
fn log_of_nothing_is_empty() {
    assert_eq!(render_log(&Vec::new()), "");
}

#[test]
fn log_of_one_path_is_one_line() {
    assert_eq!(render_log(&vec![String::from("./test/vendor")]), "./test/vendor\n");
}

#[test]
fn log_lists_paths_in_order_one_per_line() {
    let paths = vec![
        String::from("./test/node_modules"),
        String::from("./test/vendor"),
        String::from("./test/target"),
    ];
    assert_eq!(
        render_log(&paths),
        "./test/node_modules\n./test/vendor\n./test/target\n"
    );
}

#[test]
fn log_keeps_repeated_paths() {
    let paths = vec![String::from("a/target"), String::from("a/target")];
    assert_eq!(render_log(&paths), "a/target\na/target\n");
}

#[test]
fn log_reads_back_line_by_line() {
    let paths = vec![
        String::from("/work/app/node_modules"),
        String::from("/work/lib with space/target"),
        String::from("/work/\u{00e9}t\u{00e9}/vendor"),
    ];
    let text = render_log(&paths);
    let read: Vec<String> = text.lines().map(String::from).collect();
    assert_eq!(read, paths);
    assert!(text.ends_with('\n'));
}

#[test]
fn log_leaves_the_paths_unchanged() {
    let paths = vec![String::from("a/vendor"), String::from("b/target")];
    let before = paths.clone();
    let _ = render_log(&paths);
    assert_eq!(paths, before);
}

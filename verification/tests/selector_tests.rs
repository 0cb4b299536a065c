use catch_cli::code_candidate_selector::{
    extract_filename, select_codes, widest_line, CodeCandidateSelector, Data, SelectorKey,
};
use catch_cli::code_reader::CatchCLICodeFile;

fn candidates(paths: &[&str]) -> Vec<CatchCLICodeFile> {
    paths
        .iter()
        .enumerate()
        .map(|(i, p)| CatchCLICodeFile {
            path: p.to_string(),
            encrypted_file_content: format!("content{i}"),
        })
        .collect()
}

#[test]
fn file_name_is_the_last_name_of_the_path() {
    assert_eq!(extract_filename("subfolder/test.py"), "test.py");
    assert_eq!(extract_filename("test.js"), "test.js");
    assert_eq!(extract_filename("a/b/c/d.kt"), "d.kt");
    assert_eq!(extract_filename("/rooted"), "rooted");
    assert_eq!(extract_filename("dir é/ファイル.kt"), "ファイル.kt");
    assert_eq!(extract_filename("back\\slash/x"), "x");
    assert_eq!(extract_filename("..."), "...");
    assert_eq!(extract_filename(".hidden"), ".hidden");
}

#[test]
fn file_name_agrees_with_the_path_type_of_std() {
    for path in [
        "", "/", "//", ".", "./", "./.", "..", "../", "a/..", "a/../", "/..", "dir/", "dir//",
        "dir/.", "dir/./", "a/b/./.", "a//b", "./a", "../a", "a/b/..", "a/.b", "a/b.", "a/..b",
        "x/y/z.swift", "/a/b/", ".././x/", "a/ /", " ",
    ] {
        let expected = std::path::Path::new(path)
            .file_name()
            .and_then(|name| name.to_str())
            .unwrap_or("");
        assert_eq!(extract_filename(path), expected, "{path:?}");
    }
    assert_eq!(extract_filename("dir/"), "dir");
    assert_eq!(extract_filename(".."), "");
    assert_eq!(extract_filename("a/."), "a");
}

#[test]
fn new_table_has_a_row_per_file_and_nothing_chosen() {
    let table = CodeCandidateSelector::new(candidates(&["a/x.js", "y.py"]));
    assert_eq!(table.len(), 2);
    assert_eq!(table.cursor(), 0);
    assert_eq!(table.row(0).name(), "x.js");
    assert_eq!(table.row(0).path(), "a/x.js");
    assert!(!table.row(0).is_selected());
    assert_eq!(table.row(0).mark(), "0");
    assert_eq!(table.row(1).name(), "y.py");
    assert!(table.selected_paths().is_empty());
    assert_eq!(table.scroll_position(), 0);
}

#[test]
fn cursor_wraps_both_ways() {
    let mut table = CodeCandidateSelector::new(candidates(&["a", "b", "c"]));
    table.next();
    assert_eq!(table.cursor(), 1);
    assert_eq!(table.scroll_position(), 2);
    table.next();
    assert_eq!(table.cursor(), 2);
    assert_eq!(table.scroll_position(), 4);
    table.next();
    assert_eq!(table.cursor(), 0);
    table.previous();
    assert_eq!(table.cursor(), 2);
    table.previous();
    assert_eq!(table.cursor(), 1);
}

#[test]
fn space_toggles_the_row_under_the_cursor() {
    let mut table = CodeCandidateSelector::new(candidates(&["a", "b", "c"]));
    table.next();
    table.select();
    assert!(table.row(1).is_selected());
    assert_eq!(table.row(1).mark(), "1");
    assert!(!table.row(0).is_selected());
    assert_eq!(table.row(1).path(), "b");
    assert_eq!(table.selected_paths(), vec!["b"]);
    table.select();
    assert!(!table.row(1).is_selected());
    assert!(table.selected_paths().is_empty());
}

#[test]
fn keys_drive_the_table_and_enter_submits() {
    let mut table = CodeCandidateSelector::new(candidates(&["a", "b", "c"]));
    assert_eq!(table.on_key(SelectorKey::Up), None);
    assert_eq!(table.cursor(), 2);
    assert_eq!(table.on_key(SelectorKey::Space), None);
    assert_eq!(table.on_key(SelectorKey::Down), None);
    assert_eq!(table.cursor(), 0);
    assert_eq!(table.on_key(SelectorKey::Space), None);
    assert_eq!(table.on_key(SelectorKey::Other), None);
    assert_eq!(table.cursor(), 0);
    let submitted = table.on_key(SelectorKey::Enter).unwrap();
    assert_eq!(submitted, vec!["a", "c"]);
    assert_eq!(table.cursor(), 0);
    assert!(table.row(0).is_selected());
}

#[test]
fn empty_table_takes_every_key() {
    let mut table = CodeCandidateSelector::new(vec![]);
    assert_eq!(table.len(), 0);
    for key in [SelectorKey::Down, SelectorKey::Up, SelectorKey::Space, SelectorKey::Other] {
        assert_eq!(table.on_key(key), None);
        assert_eq!(table.cursor(), 0);
    }
    assert_eq!(table.on_key(SelectorKey::Enter), Some(vec![]));
}

#[test]
fn selected_files_come_in_the_order_of_the_files() {
    let files = candidates(&["a", "b", "c"]);
    let mut table = CodeCandidateSelector::new(candidates(&["c", "a", "b"]));
    table.on_key(SelectorKey::Space);
    table.on_key(SelectorKey::Down);
    table.on_key(SelectorKey::Space);
    let kept = select_codes(files, &table);
    let paths: Vec<&str> = kept.iter().map(|f| f.path.as_str()).collect();
    assert_eq!(paths, vec!["a", "c"]);
    assert_eq!(kept[0].encrypted_file_content, "content0");
    assert_eq!(kept[1].encrypted_file_content, "content2");
}

#[test]
fn a_row_of_its_own() {
    let row = Data::new("x/y/z.swift");
    assert_eq!(row.name(), "z.swift");
    assert_eq!(row.path(), "x/y/z.swift");
    assert!(!row.is_selected());
}

#[test]
fn column_widths_follow_the_widest_texts() {
    let table = CodeCandidateSelector::new(candidates(&["dir/ab.js", "x/日本語.py", "s.kt"]));
    // "日本語.py" takes two columns for each of its three wide characters
    assert_eq!(table.longest_item_lens(), (9, 11));
    assert_eq!(CodeCandidateSelector::new(vec![]).longest_item_lens(), (0, 0));
}

#[test]
fn widest_line_goes_line_by_line() {
    assert_eq!(widest_line(""), 0);
    assert_eq!(widest_line("abc"), 3);
    assert_eq!(widest_line("ab\ncdef\ng"), 4);
    assert_eq!(widest_line("abcd\r\nxy"), 4);
    assert_eq!(widest_line("abcde\n"), 5);
    assert_eq!(widest_line("\n\n"), 0);
    assert_eq!(widest_line("日本"), 4);
}

use cliptrack::filelist::{is_file_list, is_path_like, has_file_extension, has_directory_structure};

#[test]
fn four_of_five_path_like_meets_threshold() {
    // 4/5 = 80%, which meets the rounded-up 80% threshold
    let text = "/a/b.txt\nC:\\x\\y.png\n~/z.md\nnotes.txt\nhello world";
    assert!(is_file_list(text));
}

#[test]
fn three_of_five_path_like_misses_threshold() {
    let text = "/a/b.txt\nC:\\x\\y.png\n~/z.md\nhello world\nmore plain words";
    assert!(!is_file_list(text));
}

#[test]
fn blank_lines_are_discarded() {
    assert!(is_file_list("/a/b.txt\n\n   \nC:\\x\\y.png"));
    assert!(!is_file_list(""));
    assert!(!is_file_list("   \n  \n"));
}

#[test]
fn path_like_shapes() {
    assert!(is_path_like("C:\\Users\\me\\file.txt"));
    assert!(is_path_like("\\\\server\\share"));
    assert!(is_path_like("/etc/hosts"));
    assert!(is_path_like("~/projects"));
    assert!(is_path_like("src/lib.rs"));
    assert!(is_path_like("notes.txt"));
    assert!(!is_path_like("hello world"));
    assert!(!is_path_like(""));
}

#[test]
fn extension_rules() {
    assert!(has_file_extension("a.txt"));
    assert!(has_file_extension("archive.tar7"));
    assert!(!has_file_extension("no extension"));
    assert!(!has_file_extension("trailing.dot."));
    assert!(!has_file_extension("too.longext"));
}

#[test]
fn directory_structure_rules() {
    assert!(has_directory_structure("src/lib.rs"));
    assert!(has_directory_structure("a\\b\\c"));
    assert!(!has_directory_structure("single"));
    // an empty segment (double separator) breaks the structure
    assert!(!has_directory_structure("a//b"));
    // a segment with characters outside the safe set breaks it
    assert!(!has_directory_structure("a/b|c"));
}

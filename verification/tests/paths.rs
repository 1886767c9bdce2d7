use file_matcher::{file_name_of, join};

#[test]
pub fn join_inserts_a_single_separator() {
    assert_eq!(join("tests/assets", "cat.txt"), "tests/assets/cat.txt");
    assert_eq!(join("tests/assets/", "cat.txt"), "tests/assets/cat.txt");
    assert_eq!(join("", "cat.txt"), "cat.txt");
}

#[test]
pub fn file_name_is_the_final_component() {
    assert_eq!(file_name_of("tests/assets/cat.txt").unwrap(), "cat.txt");
    assert_eq!(file_name_of("cat.txt").unwrap(), "cat.txt");
    assert_eq!(file_name_of("tests/assets/"), None);
    assert_eq!(file_name_of(""), None);
}
